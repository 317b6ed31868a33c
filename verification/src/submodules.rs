use vstd::prelude::*;

verus! {

/// What the emitted submodules flag is, given the caller's explicit choice
/// (if any) and the backend's default: a caller choice is applied against
/// the default by exclusive or; with no caller choice the flag is false.
pub open spec fn spec_submodules_flag(caller: Option<bool>, backend_default: bool) -> bool {
    match caller {
        Some(c) => c != backend_default,
        None => false,
    }
}

/// Resolve the caller's submodules choice against the backend's default.
pub fn resolve_submodules_flag(caller: Option<bool>, backend_default: bool) -> (r: bool)
    ensures
        r == spec_submodules_flag(caller, backend_default),
{
    match caller {
        Some(c) => c ^ backend_default,
        None => false,
    }
}

/// The submodules flag equals `caller XOR backend_default` whenever the
/// caller expresses a choice, and is false otherwise; in particular a
/// caller's `true` on a backend whose default is already `true` yields
/// `false`.
pub proof fn lemma_submodules_flag_xor(caller: Option<bool>, backend_default: bool)
    ensures
        caller is Some ==> spec_submodules_flag(caller, backend_default) == (caller->0
            != backend_default),
        caller is None ==> !spec_submodules_flag(caller, backend_default),
        spec_submodules_flag(Some(true), true) == false,
{
}

} // verus!
