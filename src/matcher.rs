use vstd::prelude::*;

use crate::types::{Dim, Type};

verus! {

/// Driver type enum of a GLSL `int`.
pub const GL_INT: u32 = 0x1404;
/// Driver type enum of a GLSL `ivec2`.
pub const GL_INT_VEC2: u32 = 0x8B53;
/// Driver type enum of a GLSL `ivec3`.
pub const GL_INT_VEC3: u32 = 0x8B54;
/// Driver type enum of a GLSL `ivec4`.
pub const GL_INT_VEC4: u32 = 0x8B55;
/// Driver type enum of a GLSL `uint`.
pub const GL_UNSIGNED_INT: u32 = 0x1405;
/// Driver type enum of a GLSL `uvec2`.
pub const GL_UNSIGNED_INT_VEC2: u32 = 0x8DC6;
/// Driver type enum of a GLSL `uvec3`.
pub const GL_UNSIGNED_INT_VEC3: u32 = 0x8DC7;
/// Driver type enum of a GLSL `uvec4`.
pub const GL_UNSIGNED_INT_VEC4: u32 = 0x8DC8;
/// Driver type enum of a GLSL `float`.
pub const GL_FLOAT: u32 = 0x1406;
/// Driver type enum of a GLSL `vec2`.
pub const GL_FLOAT_VEC2: u32 = 0x8B50;
/// Driver type enum of a GLSL `vec3`.
pub const GL_FLOAT_VEC3: u32 = 0x8B51;
/// Driver type enum of a GLSL `vec4`.
pub const GL_FLOAT_VEC4: u32 = 0x8B52;
/// Driver type enum of a GLSL `mat2`.
pub const GL_FLOAT_MAT2: u32 = 0x8B5A;
/// Driver type enum of a GLSL `mat3`.
pub const GL_FLOAT_MAT3: u32 = 0x8B5B;
/// Driver type enum of a GLSL `mat4`.
pub const GL_FLOAT_MAT4: u32 = 0x8B5C;
/// Driver type enum of a GLSL `bool`.
pub const GL_BOOL: u32 = 0x8B56;
/// Driver type enum of a GLSL `bvec2`.
pub const GL_BOOL_VEC2: u32 = 0x8B57;
/// Driver type enum of a GLSL `bvec3`.
pub const GL_BOOL_VEC3: u32 = 0x8B58;
/// Driver type enum of a GLSL `bvec4`.
pub const GL_BOOL_VEC4: u32 = 0x8B59;

/// The row of the mapping table for a declared (type, dimension): the driver
/// type enum that the uniform must report, and the GLSL token that names it.
/// Pairs with no row (a matrix of anything but floats) are never checked.
pub open spec fn type_entry(ty: Type, dim: Dim) -> Option<(u32, Seq<char>)> {
    match (ty, dim) {
        (Type::Integral, Dim::Dim1) => Some((GL_INT, "int"@)),
        (Type::Integral, Dim::Dim2) => Some((GL_INT_VEC2, "ivec2"@)),
        (Type::Integral, Dim::Dim3) => Some((GL_INT_VEC3, "ivec3"@)),
        (Type::Integral, Dim::Dim4) => Some((GL_INT_VEC4, "ivec4"@)),
        (Type::Unsigned, Dim::Dim1) => Some((GL_UNSIGNED_INT, "uint"@)),
        (Type::Unsigned, Dim::Dim2) => Some((GL_UNSIGNED_INT_VEC2, "uvec2"@)),
        (Type::Unsigned, Dim::Dim3) => Some((GL_UNSIGNED_INT_VEC3, "uvec3"@)),
        (Type::Unsigned, Dim::Dim4) => Some((GL_UNSIGNED_INT_VEC4, "uvec4"@)),
        (Type::Floating, Dim::Dim1) => Some((GL_FLOAT, "float"@)),
        (Type::Floating, Dim::Dim2) => Some((GL_FLOAT_VEC2, "vec2"@)),
        (Type::Floating, Dim::Dim3) => Some((GL_FLOAT_VEC3, "vec3"@)),
        (Type::Floating, Dim::Dim4) => Some((GL_FLOAT_VEC4, "vec4"@)),
        (Type::Floating, Dim::Dim22) => Some((GL_FLOAT_MAT2, "mat2"@)),
        (Type::Floating, Dim::Dim33) => Some((GL_FLOAT_MAT3, "mat3"@)),
        (Type::Floating, Dim::Dim44) => Some((GL_FLOAT_MAT4, "mat4"@)),
        (Type::Boolean, Dim::Dim1) => Some((GL_BOOL, "bool"@)),
        (Type::Boolean, Dim::Dim2) => Some((GL_BOOL_VEC2, "bvec2"@)),
        (Type::Boolean, Dim::Dim3) => Some((GL_BOOL_VEC3, "bvec3"@)),
        (Type::Boolean, Dim::Dim4) => Some((GL_BOOL_VEC4, "bvec4"@)),
        _ => None,
    }
}

/// The description of a mismatch against a declared type named `token`.
pub open spec fn mismatch_message(token: Seq<char>) -> Seq<char> {
    "requested "@ + token + " doesn't match"@
}

/// What the matcher reports for a uniform whose reflection gives `size` and
/// `reported`, declared as (`ty`, `dim`): nothing for an array, nothing for a
/// pair outside the table, and otherwise a description exactly when the
/// reported enum differs from the expected one.
pub open spec fn type_mismatch(size: i32, reported: u32, ty: Type, dim: Dim) -> Option<Seq<char>> {
    if size != 1 {
        None
    } else {
        match type_entry(ty, dim) {
            Some((expected, token)) => if expected != reported {
                Some(mismatch_message(token))
            } else {
                None
            },
            None => None,
        }
    }
}

/// The mapping table, as data: the expected driver enum and the GLSL token of a
/// declared (type, dimension).
pub fn lookup_type_entry(ty: Type, dim: Dim) -> (r: Option<(u32, &'static str)>)
    ensures
        match type_entry(ty, dim) {
            Some((e, t)) => r is Some && (r->0).0 == e && (r->0).1@ == t,
            None => r is None,
        },
{
    match (ty, dim) {
        (Type::Integral, Dim::Dim1) => Some((GL_INT, "int")),
        (Type::Integral, Dim::Dim2) => Some((GL_INT_VEC2, "ivec2")),
        (Type::Integral, Dim::Dim3) => Some((GL_INT_VEC3, "ivec3")),
        (Type::Integral, Dim::Dim4) => Some((GL_INT_VEC4, "ivec4")),
        (Type::Unsigned, Dim::Dim1) => Some((GL_UNSIGNED_INT, "uint")),
        (Type::Unsigned, Dim::Dim2) => Some((GL_UNSIGNED_INT_VEC2, "uvec2")),
        (Type::Unsigned, Dim::Dim3) => Some((GL_UNSIGNED_INT_VEC3, "uvec3")),
        (Type::Unsigned, Dim::Dim4) => Some((GL_UNSIGNED_INT_VEC4, "uvec4")),
        (Type::Floating, Dim::Dim1) => Some((GL_FLOAT, "float")),
        (Type::Floating, Dim::Dim2) => Some((GL_FLOAT_VEC2, "vec2")),
        (Type::Floating, Dim::Dim3) => Some((GL_FLOAT_VEC3, "vec3")),
        (Type::Floating, Dim::Dim4) => Some((GL_FLOAT_VEC4, "vec4")),
        (Type::Floating, Dim::Dim22) => Some((GL_FLOAT_MAT2, "mat2")),
        (Type::Floating, Dim::Dim33) => Some((GL_FLOAT_MAT3, "mat3")),
        (Type::Floating, Dim::Dim44) => Some((GL_FLOAT_MAT4, "mat4")),
        (Type::Boolean, Dim::Dim1) => Some((GL_BOOL, "bool")),
        (Type::Boolean, Dim::Dim2) => Some((GL_BOOL_VEC2, "bvec2")),
        (Type::Boolean, Dim::Dim3) => Some((GL_BOOL_VEC3, "bvec3")),
        (Type::Boolean, Dim::Dim4) => Some((GL_BOOL_VEC4, "bvec4")),
        _ => None,
    }
}

/// Checks a uniform's reflection data (`size`, `reported` type enum) against the
/// declared (`ty`, `dim`). Returns a description when a mismatch is proven, and
/// `None` otherwise; arrays (`size != 1`) are never checked.
pub fn uniform_type_match(size: i32, reported: u32, ty: Type, dim: Dim) -> (r: Option<String>)
    ensures
        match type_mismatch(size, reported, ty, dim) {
            Some(m) => r is Some && r->0@ == m,
            None => r is None,
        },
{
    if size != 1 {
        return None;
    }
    match lookup_type_entry(ty, dim) {
        Some((expected, token)) => {
            if expected != reported {
                let mut msg = String::from_str("requested ");
                msg.append(token);
                msg.append(" doesn't match");
                Some(msg)
            } else {
                None
            }
        },
        None => None,
    }
}

/// Every row of the table matches the uniform it describes, and refuses the
/// uniform of any other row: a uniform declared with the GLSL type of the row of
/// (`other_ty`, `other_dim`) is reported as a mismatch for (`ty`, `dim`) unless
/// the two pairs are the same.
pub proof fn lemma_type_match(ty: Type, dim: Dim, other_ty: Type, other_dim: Dim)
    requires
        type_entry(ty, dim) is Some,
        type_entry(other_ty, other_dim) is Some,
    ensures
        type_mismatch(1, (type_entry(ty, dim)->0).0, ty, dim) is None,
        (other_ty, other_dim) != (ty, dim) ==> type_mismatch(
            1,
            (type_entry(other_ty, other_dim)->0).0,
            ty,
            dim,
        ) == Some(mismatch_message((type_entry(ty, dim)->0).1)),
{
}

/// A uniform that the driver reports as an array is never reported as a
/// mismatch, whatever its element type and the declared pair.
pub proof fn lemma_array_never_mismatches(size: i32, reported: u32, ty: Type, dim: Dim)
    requires
        size != 1,
    ensures
        type_mismatch(size, reported, ty, dim) is None,
{
}

} // verus!
