use vstd::prelude::*;

verus! {

/// The program handle that means "no program current".
pub const NO_PROGRAM: u32 = 0;

/// The graphics context's current-program slot, with the record of every
/// bind request issued to it, oldest first.
pub struct ProgramSlot {
    current: u32,
    binds: Vec<u32>,
}

impl ProgramSlot {
    /// The program that is current.
    pub closed spec fn spec_current(&self) -> u32 {
        self.current
    }

    /// The bind requests issued so far, oldest first.
    pub closed spec fn spec_binds(&self) -> Seq<u32> {
        self.binds@
    }

    /// A slot with no program current and no request issued.
    pub fn new() -> (r: ProgramSlot)
        ensures
            r.spec_current() == NO_PROGRAM,
            r.spec_binds() == Seq::<u32>::empty(),
    {
        ProgramSlot { current: NO_PROGRAM, binds: Vec::new() }
    }

    /// The program that is current.
    pub fn current(&self) -> (r: u32)
        ensures
            r == self.spec_current(),
    {
        self.current
    }

    /// The bind requests issued so far, oldest first.
    pub fn binds(&self) -> (r: &Vec<u32>)
        ensures
            r@ == self.spec_binds(),
    {
        &self.binds
    }

    /// Makes `program` current, recording the request.
    pub fn use_program(&mut self, program: u32)
        ensures
            final(self).spec_current() == program,
            final(self).spec_binds() == old(self).spec_binds().push(program),
    {
        self.current = program;
        self.binds.push(program);
    }
}

/// Runs `updates` with `program` current, then makes no program current again,
/// whether `updates` succeeded or failed; returns what `updates` returned.
pub fn update_uniforms<F, R, E>(slot: &mut ProgramSlot, program: u32, updates: F) -> (r: Result<R, E>)
    where
        F: FnOnce() -> Result<R, E>,
    requires
        updates.requires(()),
    ensures
        updates.ensures((), r),
        final(slot).spec_current() == NO_PROGRAM,
        final(slot).spec_binds() == old(slot).spec_binds().push(program).push(NO_PROGRAM),
{
    slot.use_program(program);
    let r = updates();
    slot.use_program(NO_PROGRAM);
    r
}

} // verus!
