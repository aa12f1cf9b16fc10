//! Host-side bridge around an embedded scripting-language VM: the
//! interpreter state and its type registry, the symbol cache, output
//! capture, the builtin exception hierarchy, raising into the guest, and the
//! eval context stack.
use vstd::prelude::*;
use vstd::string::StringSliceAdditionalSpecFns;

pub mod enumerator;
pub mod eval;
pub mod exception;
pub mod float;
pub mod hierarchy;
pub mod numeric;
pub mod state;
pub mod sys;
pub mod text;

use crate::exception::{hierarchy_installed, lemma_installed_kept};
use crate::hierarchy::{lemma_kind_order, ExceptionKind, KIND_COUNT};
use crate::state::{CompileContext, State, TypeKey};
use crate::sys::Vm;

verus! {

/// Host-level errors.
#[derive(Debug, PartialEq, Eq)]
pub enum ArtichokeError {
    /// Guest code raised; the payload is the error's display form.
    Exec(String),
    /// The interpreter has been closed.
    Uninitialized,
}

/// A guest value, as an opaque word of the guest VM.
#[derive(Clone, Copy, Debug, PartialEq, Eq, Structural)]
pub struct Value {
    pub inner: u64,
}

/// An interpreter: the host state over one guest VM.
pub struct Artichoke {
    pub state: state::State,
}

/// Whether `key` is registered in `s` under `name`.
pub open spec fn registered_as(s: State, key: TypeKey, name: Seq<u8>) -> bool {
    s.class_registry().contains_key(key.spec_id()) && s.class_registry()[key.spec_id()].name@
        == name
}

/// Carries the installed hierarchy over one builtin class registration.
proof fn lemma_builtin_keeps(s: State, t: State, key: TypeKey, name: Seq<u8>, r: Result<(), ArtichokeError>)
    requires
        hierarchy_installed(s),
        s.wf(),
        state::builtin_defined(s, t, key, name, r),
        key.spec_id() >= KIND_COUNT,
    ensures
        hierarchy_installed(t),
        r is Ok,
        forall|id: u64| id != key.spec_id() ==> #[trigger] t.class_registry().contains_key(id)
            == s.class_registry().contains_key(id) && (s.class_registry().contains_key(id)
            ==> t.class_registry()[id] == s.class_registry()[id]),
        registered_as(t, key, name) || s.class_registry().contains_key(key.spec_id()),
{
    assert forall|id: u64| id != key.spec_id() implies #[trigger] t.class_registry().contains_key(id)
        == s.class_registry().contains_key(id) && (s.class_registry().contains_key(id)
        ==> t.class_registry()[id] == s.class_registry()[id]) by {
        if !s.class_registry().contains_key(key.spec_id()) {
            assert(t.class_registry().remove(key.spec_id()).contains_key(id)
                == t.class_registry().contains_key(id));
            assert(s.class_registry().remove(key.spec_id()).contains_key(id)
                == s.class_registry().contains_key(id));
            if s.class_registry().contains_key(id) {
                assert(t.class_registry().remove(key.spec_id())[id] == t.class_registry()[id]);
                assert(s.class_registry().remove(key.spec_id())[id] == s.class_registry()[id]);
            }
        }
    }
    assert(s.class_table().is_prefix_of(t.class_table()));
    assert forall|k: ExceptionKind| #[trigger]
        t.class_registry().contains_key(TypeKey::Exception(k).spec_id())
            == s.class_registry().contains_key(TypeKey::Exception(k).spec_id()) && (
        s.class_registry().contains_key(TypeKey::Exception(k).spec_id()) ==> t.class_registry()[TypeKey::Exception(k).spec_id()]
            == s.class_registry()[TypeKey::Exception(k).spec_id()]) by {
        lemma_kind_order(k);
        assert(TypeKey::Exception(k).spec_id() != key.spec_id());
    }
    lemma_installed_kept(s, t);
}

/// A fresh interpreter: an open guest VM at line one, the builtin exception
/// hierarchy, and the classes `Enumerator`, `Float` and `Numeric`.
pub fn interpreter() -> (r: Result<Artichoke, ArtichokeError>)
    ensures
        r matches Ok(i) && {
            &&& i.state.wf()
            &&& hierarchy_installed(i.state)
            &&& i.state.contexts().len() == 0
            &&& i.state.captured() is None
            &&& i.state.lineno() == Some(1u64)
            &&& registered_as(i.state, TypeKey::Enumerator, "Enumerator".spec_bytes())
            &&& registered_as(i.state, TypeKey::Float, "Float".spec_bytes())
            &&& registered_as(i.state, TypeKey::Numeric, "Numeric".spec_bytes())
        },
{
    let vm = Vm::new();
    let mut interp = Artichoke { state: State::new(vm, CompileContext { lineno: 1 }) };
    let ghost s0 = interp.state;
    let r0 = exception::init(&mut interp);
    let ghost s1 = interp.state;
    assert(!exception::bootstrapped(s0));
    let r1 = enumerator::init(&mut interp);
    let ghost s2 = interp.state;
    proof {
        assert(!s1.class_registry().contains_key(TypeKey::Enumerator.spec_id()));
        lemma_builtin_keeps(s1, s2, TypeKey::Enumerator, "Enumerator".spec_bytes(), r1);
    }
    let r2 = float::init(&mut interp);
    let ghost s3 = interp.state;
    proof {
        assert(!s2.class_registry().contains_key(TypeKey::Float.spec_id()));
        lemma_builtin_keeps(s2, s3, TypeKey::Float, "Float".spec_bytes(), r2);
    }
    let r3 = numeric::init(&mut interp);
    proof {
        assert(!s3.class_registry().contains_key(TypeKey::Numeric.spec_id()));
        lemma_builtin_keeps(s3, interp.state, TypeKey::Numeric, "Numeric".spec_bytes(), r3);
        assert(interp.state.class_registry().contains_key(TypeKey::Enumerator.spec_id()));
        assert(interp.state.class_registry().contains_key(TypeKey::Float.spec_id()));
    }
    match r0 {
        Ok(()) => {},
        Err(e) => {
            return Err(e);
        },
    }
    Ok(interp)
}

} // verus!
