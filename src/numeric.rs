//! The `Numeric` builtin class.
use vstd::prelude::*;
use vstd::string::StringSliceAdditionalSpecFns;

use crate::eval::{builtin_loaded, define_and_load, Guest};
use crate::state::{builtin_defined, define_builtin, TypeKey};
use crate::{Artichoke, ArtichokeError};

verus! {

/// Registers and defines `Numeric`; does nothing when it is registered
/// already.
pub fn init(interp: &mut Artichoke) -> (r: Result<(), ArtichokeError>)
    requires
        old(interp).state.wf(),
    ensures
        builtin_defined(
            old(interp).state,
            final(interp).state,
            TypeKey::Numeric,
            "Numeric".spec_bytes(),
            r,
        ),
{
    define_builtin(&mut interp.state, TypeKey::Numeric, "Numeric")
}

/// Registers and defines `Numeric`, then loads `source`, its guest-side
/// definitions. Does nothing when it is registered already.
pub fn init_with_source<G: Guest>(interp: &mut Artichoke, guest: &mut G, source: &[u8]) -> (r:
    Result<(), ArtichokeError>)
    requires
        old(interp).state.wf(),
    ensures
        builtin_loaded(old(interp).state, final(interp).state, TypeKey::Numeric, r),
{
    define_and_load(interp, guest, TypeKey::Numeric, "Numeric", source)
}

/// The host type bound to the guest class `Numeric`.
pub struct Numeric;

} // verus!
