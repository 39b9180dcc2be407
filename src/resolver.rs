use vstd::prelude::*;

use crate::matcher::{type_mismatch, uniform_type_match};
use crate::types::{warning_view, Dim, Type, UniformWarning, WarningSpec};

verus! {

/// The location the driver reports for a name that is not an active uniform.
pub const INACTIVE_LOCATION: i32 = -1;

/// What the driver's reflection reports of an active uniform: its array size
/// (1 for a non-array) and its type enum.
#[derive(Clone, Copy, Debug, PartialEq, Eq, Structural)]
pub struct UniformInfo {
    pub size: i32,
    pub gl_type: u32,
}

/// The handle and warning that resolving `name` gives, where the driver
/// reported `location` for it and, for an active uniform, `info`.
pub open spec fn resolution(
    name: Seq<char>,
    location: i32,
    info: Option<UniformInfo>,
    ty: Type,
    dim: Dim,
) -> (i32, Option<WarningSpec>) {
    if location == INACTIVE_LOCATION {
        (INACTIVE_LOCATION, Some(WarningSpec::Inactive(name)))
    } else {
        let i = info->0;
        match type_mismatch(i.size, i.gl_type, ty, dim) {
            Some(m) => (location, Some(WarningSpec::TypeMismatch(m))),
            None => (location, None),
        }
    }
}

/// Resolves the uniform `name`, declared as (`ty`, `dim`), from the location the
/// driver reported for it and, when that location is active, the driver's
/// reflection data for it. An inactive name gives the sentinel location and an
/// `Inactive` warning without any type check; an active one gives its location
/// and a `TypeMismatch` warning exactly when the matcher proves a mismatch.
pub fn map_uniform(
    name: &str,
    location: i32,
    info: Option<UniformInfo>,
    ty: Type,
    dim: Dim,
) -> (r: (i32, Option<UniformWarning>))
    requires
        location == INACTIVE_LOCATION || info is Some,
    ensures
        (r.0, warning_view(r.1)) == resolution(name@, location, info, ty, dim),
{
    if location == INACTIVE_LOCATION {
        return (INACTIVE_LOCATION, Some(UniformWarning::Inactive(name.to_owned())));
    }
    let i = info.unwrap();
    match uniform_type_match(i.size, i.gl_type, ty, dim) {
        Some(err) => (location, Some(UniformWarning::TypeMismatch(err))),
        None => (location, None),
    }
}

/// A name that is not an active uniform resolves to the sentinel location with
/// an `Inactive` warning naming it, never a mismatch warning.
pub proof fn lemma_inactive_uniform(name: Seq<char>, info: Option<UniformInfo>, ty: Type, dim: Dim)
    ensures
        resolution(name, INACTIVE_LOCATION, info, ty, dim) == (
            INACTIVE_LOCATION,
            Some(WarningSpec::Inactive(name)),
        ),
        !(resolution(name, INACTIVE_LOCATION, info, ty, dim).1 matches Some(
            WarningSpec::TypeMismatch(_),
        )),
{
}

/// Resolving the same name twice against a program whose driver answers are
/// unchanged gives the same handle and the same warning.
pub proof fn lemma_resolution_idempotent(
    first: Seq<char>,
    second: Seq<char>,
    location: i32,
    info: Option<UniformInfo>,
    ty: Type,
    dim: Dim,
)
    requires
        first == second,
    ensures
        resolution(first, location, info, ty, dim) == resolution(second, location, info, ty, dim),
{
}

} // verus!
