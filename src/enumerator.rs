//! The `Enumerator` builtin class.
use vstd::prelude::*;
use vstd::string::StringSliceAdditionalSpecFns;

use crate::eval::{builtin_loaded, define_and_load, source_loaded, Guest};
use crate::state::{builtin_defined, define_builtin, State, TypeKey};
use crate::{Artichoke, ArtichokeError};

verus! {

/// Registers and defines `Enumerator`; does nothing when it is registered
/// already.
pub fn init(interp: &mut Artichoke) -> (r: Result<(), ArtichokeError>)
    requires
        old(interp).state.wf(),
    ensures
        builtin_defined(
            old(interp).state,
            final(interp).state,
            TypeKey::Enumerator,
            "Enumerator".spec_bytes(),
            r,
        ),
{
    define_builtin(&mut interp.state, TypeKey::Enumerator, "Enumerator")
}

/// What loading the two sources did after `Enumerator` was registered in
/// `pre`, taking it to `post` with result `r`: the first load gave `first`
/// in some state `mid`; when that failed, its error is the result and
/// nothing more ran; else the result is that of loading the second source
/// from `mid`.
pub open spec fn sources_loaded(pre: State, post: State, r: Result<(), ArtichokeError>) -> bool {
    exists|mid: State, first: Result<(), ArtichokeError>|
        #![trigger builtin_loaded(pre, mid, TypeKey::Enumerator, first)]
        builtin_loaded(pre, mid, TypeKey::Enumerator, first) && if first is Err {
            r == first && post == mid
        } else {
            source_loaded(mid, post, r)
        }
}

/// Registers and defines `Enumerator`, then loads `source` and, when that
/// succeeded, `lazy`, the guest-side definitions of `Enumerator` and
/// `Enumerator::Lazy`. Does nothing when it is registered already.
pub fn init_with_source<G: Guest>(interp: &mut Artichoke, guest: &mut G, source: &[u8], lazy: &[u8]) -> (r:
    Result<(), ArtichokeError>)
    requires
        old(interp).state.wf(),
    ensures
        final(interp).state.contexts() == old(interp).state.contexts(),
        old(interp).state.class_registry().contains_key(TypeKey::Enumerator.spec_id()) ==> r is Ok
            && final(interp).state.spec_vm() == old(interp).state.spec_vm()
            && final(interp).state.class_registry() == old(interp).state.class_registry(),
        !old(interp).state.class_registry().contains_key(TypeKey::Enumerator.spec_id()) && !old(
            interp,
        ).state.is_open_spec() ==> r == Err::<(), ArtichokeError>(ArtichokeError::Uninitialized),
        !old(interp).state.class_registry().contains_key(TypeKey::Enumerator.spec_id()) && old(
            interp,
        ).state.is_open_spec() ==> sources_loaded(old(interp).state, final(interp).state, r),
{
    if interp.state.class_spec(TypeKey::Enumerator).is_some() {
        return Ok(());
    }
    let ghost pre = interp.state;
    let first = define_and_load(interp, guest, TypeKey::Enumerator, "Enumerator", source);
    let ghost mid = interp.state;
    match first {
        Ok(()) => {},
        Err(e) => {
            assert(sources_loaded(pre, interp.state, Err(e)) || !pre.is_open_spec());
            return Err(e);
        },
    }
    let r = crate::eval::load_source(interp, guest, lazy);
    assert(sources_loaded(pre, interp.state, r) || !pre.is_open_spec());
    r
}

/// The host type bound to the guest class `Enumerator`.
pub struct Enumerator;

} // verus!
