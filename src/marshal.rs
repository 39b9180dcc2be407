use vstd::prelude::*;

verus! {

/// The integer a boolean is sent to the driver as: 1 for true, 0 for false.
pub open spec fn int_of_bool(b: bool) -> i32 {
    if b {
        1
    } else {
        0
    }
}

/// The integers a sequence of booleans is sent to the driver as, one for one.
pub open spec fn ints_of_bools(s: Seq<bool>) -> Seq<i32> {
    s.map_values(|b: bool| int_of_bool(b))
}

/// Marshals a boolean to its integer representation.
pub fn bool_to_int(b: bool) -> (r: i32)
    ensures
        r == int_of_bool(b),
{
    if b {
        1
    } else {
        0
    }
}

/// Marshals a sequence of booleans to integers, element by element.
pub fn bools_to_ints(v: &[bool]) -> (r: Vec<i32>)
    ensures
        r@ == ints_of_bools(v@),
{
    let mut out: Vec<i32> = Vec::new();
    let mut i: usize = 0;
    while i < v.len()
        invariant
            i <= v@.len(),
            out@ == ints_of_bools(v@.subrange(0, i as int)),
        decreases v@.len() - i,
    {
        out.push(bool_to_int(v[i]));
        proof {
            assert(v@.subrange(0, i + 1) =~= v@.subrange(0, i as int).push(v@[i as int]));
        }
        i = i + 1;
    }
    proof {
        assert(v@.subrange(0, v@.len() as int) =~= v@);
    }
    out
}

/// Marshals a `bvec2` to the `ivec2` the driver receives.
pub fn bvec2_to_ivec2(v: [bool; 2]) -> (r: [i32; 2])
    ensures
        r@ == ints_of_bools(v@),
{
    let r = [bool_to_int(v[0]), bool_to_int(v[1])];
    proof {
        assert(r@ =~= ints_of_bools(v@));
    }
    r
}

/// Marshals a `bvec3` to the `ivec3` the driver receives.
pub fn bvec3_to_ivec3(v: [bool; 3]) -> (r: [i32; 3])
    ensures
        r@ == ints_of_bools(v@),
{
    let r = [bool_to_int(v[0]), bool_to_int(v[1]), bool_to_int(v[2])];
    proof {
        assert(r@ =~= ints_of_bools(v@));
    }
    r
}

/// Marshals a `bvec4` to the `ivec4` the driver receives.
pub fn bvec4_to_ivec4(v: [bool; 4]) -> (r: [i32; 4])
    ensures
        r@ == ints_of_bools(v@),
{
    let r = [bool_to_int(v[0]), bool_to_int(v[1]), bool_to_int(v[2]), bool_to_int(v[3])];
    proof {
        assert(r@ =~= ints_of_bools(v@));
    }
    r
}

/// Marshals a sequence of `bvec2` to the `ivec2` sequence the driver
/// receives, vector by vector.
pub fn bvec2s_to_ivec2s(v: &[[bool; 2]]) -> (r: Vec<[i32; 2]>)
    ensures
        r@.len() == v@.len(),
        forall|j: int| 0 <= j < v@.len() ==> #[trigger] r@[j]@ == ints_of_bools(v@[j]@),
{
    let mut out: Vec<[i32; 2]> = Vec::new();
    let mut i: usize = 0;
    while i < v.len()
        invariant
            i <= v@.len(),
            out@.len() == i,
            forall|j: int| 0 <= j < i ==> #[trigger] out@[j]@ == ints_of_bools(v@[j]@),
        decreases v@.len() - i,
    {
        out.push(bvec2_to_ivec2(v[i]));
        i = i + 1;
    }
    out
}

/// Marshals a sequence of `bvec3` to the `ivec3` sequence the driver
/// receives, vector by vector.
pub fn bvec3s_to_ivec3s(v: &[[bool; 3]]) -> (r: Vec<[i32; 3]>)
    ensures
        r@.len() == v@.len(),
        forall|j: int| 0 <= j < v@.len() ==> #[trigger] r@[j]@ == ints_of_bools(v@[j]@),
{
    let mut out: Vec<[i32; 3]> = Vec::new();
    let mut i: usize = 0;
    while i < v.len()
        invariant
            i <= v@.len(),
            out@.len() == i,
            forall|j: int| 0 <= j < i ==> #[trigger] out@[j]@ == ints_of_bools(v@[j]@),
        decreases v@.len() - i,
    {
        out.push(bvec3_to_ivec3(v[i]));
        i = i + 1;
    }
    out
}

/// Marshals a sequence of `bvec4` to the `ivec4` sequence the driver
/// receives, vector by vector.
pub fn bvec4s_to_ivec4s(v: &[[bool; 4]]) -> (r: Vec<[i32; 4]>)
    ensures
        r@.len() == v@.len(),
        forall|j: int| 0 <= j < v@.len() ==> #[trigger] r@[j]@ == ints_of_bools(v@[j]@),
{
    let mut out: Vec<[i32; 4]> = Vec::new();
    let mut i: usize = 0;
    while i < v.len()
        invariant
            i <= v@.len(),
            out@.len() == i,
            forall|j: int| 0 <= j < i ==> #[trigger] out@[j]@ == ints_of_bools(v@[j]@),
        decreases v@.len() - i,
    {
        out.push(bvec4_to_ivec4(v[i]));
        i = i + 1;
    }
    out
}

/// The integer a texture unit index is sent to the driver as: the same bits,
/// read as a signed integer.
pub fn texture_unit_value(unit: u32) -> (r: i32)
    ensures
        r == unit as i32,
{
    unit as i32
}

/// The element count the driver receives for a sequence of `len` elements, or
/// `None` when `len` does not fit the driver's count type; counts are never
/// truncated.
pub fn element_count(len: usize) -> (r: Option<i32>)
    ensures
        len <= i32::MAX ==> r == Some(len as i32),
        len > i32::MAX ==> r is None,
{
    if len <= i32::MAX as usize {
        Some(len as i32)
    } else {
        None
    }
}

} // verus!
