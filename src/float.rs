//! The `Float` builtin class.
use vstd::prelude::*;
use vstd::string::StringSliceAdditionalSpecFns;

use crate::eval::{builtin_loaded, define_and_load, Guest};
use crate::state::{builtin_defined, define_builtin, TypeKey};
use crate::{Artichoke, ArtichokeError};

verus! {

/// Registers and defines `Float`; does nothing when it is registered
/// already.
pub fn init(interp: &mut Artichoke) -> (r: Result<(), ArtichokeError>)
    requires
        old(interp).state.wf(),
    ensures
        builtin_defined(
            old(interp).state,
            final(interp).state,
            TypeKey::Float,
            "Float".spec_bytes(),
            r,
        ),
{
    define_builtin(&mut interp.state, TypeKey::Float, "Float")
}

/// Registers and defines `Float`, then loads `source`, its guest-side
/// definitions. Does nothing when it is registered already.
pub fn init_with_source<G: Guest>(interp: &mut Artichoke, guest: &mut G, source: &[u8]) -> (r:
    Result<(), ArtichokeError>)
    requires
        old(interp).state.wf(),
    ensures
        builtin_loaded(old(interp).state, final(interp).state, TypeKey::Float, r),
{
    define_and_load(interp, guest, TypeKey::Float, "Float", source)
}

/// The host type bound to the guest class `Float`.
pub struct Float;

} // verus!
