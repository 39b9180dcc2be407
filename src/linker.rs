use vstd::prelude::*;

use crate::types::{ProgramError, ProgramErrorSpec};

verus! {

/// The driver's boolean `true`, as reported by a status query.
pub const GL_TRUE: i32 = 1;

/// The text that a byte sequence decodes to as UTF-8, or `None` when it is not
/// valid UTF-8.
pub uninterp spec fn utf8_decoded(bytes: Seq<u8>) -> Option<Seq<char>>;

/// Relies on `String::from_utf8`: it succeeds exactly on valid UTF-8, and then
/// holds the decoded text; no bytes decode to no text.
#[verifier::external_body]
fn decode_utf8(bytes: Vec<u8>) -> (r: Option<String>)
    ensures
        match utf8_decoded(bytes@) {
            Some(t) => r is Some && r->0@ == t,
            None => r is None,
        },
        bytes@.len() == 0 ==> r is Some && r->0@.len() == 0,
{
    String::from_utf8(bytes).ok()
}

/// The order in which the stages are attached to a new program: the
/// tessellation control and evaluation stages, the vertex stage, the geometry
/// stage, then the fragment stage, each optional one only when present.
pub open spec fn attach_sequence(
    tess: Option<(u32, u32)>,
    vertex: u32,
    geometry: Option<u32>,
    fragment: u32,
) -> Seq<u32> {
    let t = match tess {
        Some((control, evaluation)) => seq![control, evaluation],
        None => Seq::empty(),
    };
    let g = match geometry {
        Some(geometry) => seq![geometry],
        None => Seq::empty(),
    };
    t + seq![vertex] + g + seq![fragment]
}

/// The stage handles to attach to a new program, in attachment order.
pub fn attach_order(
    tess: Option<(u32, u32)>,
    vertex: u32,
    geometry: Option<u32>,
    fragment: u32,
) -> (r: Vec<u32>)
    ensures
        r@ == attach_sequence(tess, vertex, geometry, fragment),
{
    let mut stages: Vec<u32> = Vec::new();
    if let Some((control, evaluation)) = tess {
        stages.push(control);
        stages.push(evaluation);
    }
    stages.push(vertex);
    if let Some(geometry) = geometry {
        stages.push(geometry);
    }
    stages.push(fragment);
    proof {
        assert(stages@ =~= attach_sequence(tess, vertex, geometry, fragment));
    }
    stages
}

/// Whether a link-status query reported success.
pub fn is_linked(status: i32) -> (r: bool)
    ensures
        r == (status == GL_TRUE),
{
    status == GL_TRUE
}

/// The size of the buffer that receives a link log whose reported length is
/// `log_len`; a negative report gives an empty buffer.
pub fn log_capacity(log_len: i32) -> (r: usize)
    ensures
        r as int == if log_len < 0 {
            0
        } else {
            log_len as int
        },
{
    if log_len < 0 {
        0
    } else {
        log_len as usize
    }
}

/// The error of a failed link whose driver log holds `log`: `LinkFailed` with
/// the decoded log, or `None` when the log is not valid UTF-8.
pub fn link_failure(log: Vec<u8>) -> (r: Option<ProgramError>)
    ensures
        match utf8_decoded(log@) {
            Some(t) => r is Some && r->0@ == ProgramErrorSpec::LinkFailed(t),
            None => r is None,
        },
{
    match decode_utf8(log) {
        Some(text) => Some(ProgramError::LinkFailed(text)),
        None => None,
    }
}

/// The outcome of linking `program`, given the status the driver reported and,
/// for a failed link, the driver's log. A successful link yields the program;
/// a failed one yields `LinkFailed` carrying the log and never the program,
/// and `None` stands for a log that is not text.
pub fn link_result(program: u32, status: i32, log: Vec<u8>) -> (r: Option<Result<u32, ProgramError>>)
    ensures
        status == GL_TRUE ==> r == Some(Ok::<u32, ProgramError>(program)),
        status != GL_TRUE ==> match utf8_decoded(log@) {
            Some(t) => r is Some && r->0 is Err && (r->0)->Err_0@ == ProgramErrorSpec::LinkFailed(t),
            None => r is None,
        },
{
    if is_linked(status) {
        Some(Ok(program))
    } else {
        match link_failure(log) {
            Some(e) => Some(Err(e)),
            None => None,
        }
    }
}

} // verus!
