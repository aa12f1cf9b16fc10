//! Builtin exception values, raising them into the guest, and the host-level
//! record of a guest error.
use vstd::prelude::*;
use vstd::string::StringSliceAdditionalSpecFns;

use crate::hierarchy::{lemma_at_index, lemma_kind_order, ExceptionKind, KIND_COUNT};
use crate::state::{ClassSpec, State, TypeKey};
use crate::sys::ClassHandle;
use crate::text::{ascii_chars, is_ascii_bytes, copy_bytes, decimal, extend_bytes, lossy_string, push_decimal, utf8_lossy};
use crate::eval::{load_source, loaded_as, Guest};
use crate::{Artichoke, ArtichokeError, Value};

verus! {

/// `(eval)`: the file name of a unit run without a name of its own.
pub open spec fn top_filename() -> Seq<u8> {
    seq![40u8, 101u8, 118u8, 97u8, 108u8, 41u8]
}

/// `(eval)` as bytes.
pub fn top_filename_bytes() -> (r: Vec<u8>)
    ensures
        r@ == top_filename(),
{
    let r: Vec<u8> = vec![40u8, 101u8, 118u8, 97u8, 108u8, 41u8];
    assert(r@ =~= top_filename());
    r
}

/// The class name registered for `key`; empty when none is.
pub open spec fn registered_name(s: State, key: TypeKey) -> Seq<u8> {
    if s.class_registry().contains_key(key.spec_id()) {
        s.class_registry()[key.spec_id()].name@
    } else {
        Seq::empty()
    }
}

/// The guest class registered for `key`, if any.
pub open spec fn registered_rclass(s: State, key: TypeKey) -> Option<ClassHandle> {
    if s.class_registry().contains_key(key.spec_id()) {
        s.class_registry()[key.spec_id()].rclass
    } else {
        None
    }
}

/// What a raisable value offers: its message, and its class name and guest
/// class as the registry holds them when asked.
pub trait RubyException {
    spec fn spec_key(&self) -> TypeKey;

    spec fn spec_message(&self) -> Seq<u8>;

    fn key(&self) -> (r: TypeKey)
        ensures
            r == self.spec_key(),
    ;

    fn message(&self) -> (r: &[u8])
        ensures
            r@ == self.spec_message(),
    ;

    fn name(&self, interp: &Artichoke) -> (r: String)
        ensures
            r@ == utf8_lossy(registered_name(interp.state, self.spec_key())),
    ;

    fn rclass(&self, interp: &Artichoke) -> (r: Option<ClassHandle>)
        ensures
            r == registered_rclass(interp.state, self.spec_key()),
    ;
}

/// A value of one of the builtin exception classes.
pub struct BuiltinError {
    pub kind: ExceptionKind,
    pub message: Vec<u8>,
    /// The host stack where the value was made, when traces are on.
    pub backtrace: Option<backtrace::Backtrace>,
}

#[verifier::external_type_specification]
#[verifier::external_body]
pub struct ExBacktrace(backtrace::Backtrace);

/// Relies on `backtrace::Backtrace::new`, which captures and resolves the
/// current host stack.
#[verifier::external_body]
fn capture_backtrace() -> backtrace::Backtrace {
    backtrace::Backtrace::new()
}

impl BuiltinError {
    /// A `kind` error with text `message`; `with_trace` captures the host
    /// stack too.
    pub fn new(kind: ExceptionKind, message: &str, with_trace: bool) -> (r: BuiltinError)
        ensures
            r.kind == kind,
            r.message@ == message.spec_bytes(),
            r.backtrace is Some == with_trace,
    {
        BuiltinError::new_raw(kind, copy_bytes(message.as_bytes()), with_trace)
    }

    /// A `kind` error with message bytes `message`.
    pub fn new_raw(kind: ExceptionKind, message: Vec<u8>, with_trace: bool) -> (r: BuiltinError)
        ensures
            r.kind == kind,
            r.message@ == message@,
            r.backtrace is Some == with_trace,
    {
        let backtrace = if with_trace {
            Some(capture_backtrace())
        } else {
            None
        };
        BuiltinError { kind, message, backtrace }
    }
}

/// `name (message)` as bytes.
pub open spec fn described(name: Seq<u8>, message: Seq<u8>) -> Seq<u8> {
    name + seq![32u8, 40u8] + message + seq![41u8]
}

impl BuiltinError {
    /// `name (message)`, with the class name as the registry holds it now.
    pub fn display(&self, interp: &Artichoke) -> (r: String)
        ensures
            r@ == utf8_lossy(
                described(registered_name(interp.state, TypeKey::Exception(self.kind)), self.message@),
            ),
    {
        let mut b: Vec<u8> = match interp.state.class_spec(TypeKey::Exception(self.kind)) {
            Some(spec) => copy_bytes(spec.name()),
            None => Vec::new(),
        };
        b.push(32u8);
        b.push(40u8);
        extend_bytes(&mut b, self.message.as_slice());
        b.push(41u8);
        assert(b@ =~= described(
            registered_name(interp.state, TypeKey::Exception(self.kind)),
            self.message@,
        ));
        lossy_string(b.as_slice())
    }
}

impl RubyException for BuiltinError {
    open spec fn spec_key(&self) -> TypeKey {
        TypeKey::Exception(self.kind)
    }

    open spec fn spec_message(&self) -> Seq<u8> {
        self.message@
    }

    fn key(&self) -> (r: TypeKey) {
        TypeKey::Exception(self.kind)
    }

    fn message(&self) -> (r: &[u8]) {
        self.message.as_slice()
    }

    fn name(&self, interp: &Artichoke) -> (r: String) {
        match interp.state.class_spec(TypeKey::Exception(self.kind)) {
            Some(spec) => lossy_string(spec.name()),
            None => {
                let empty: Vec<u8> = Vec::new();
                assert(empty@ =~= Seq::<u8>::empty());
                lossy_string(empty.as_slice())
            },
        }
    }

    fn rclass(&self, interp: &Artichoke) -> (r: Option<ClassHandle>) {
        match interp.state.class_spec(TypeKey::Exception(self.kind)) {
            Some(spec) => spec.rclass(),
            None => None,
        }
    }
}

/// A guest error on its way to the nearest protected boundary.
pub struct Unwind {
    /// The guest class of the error.
    pub class: ClassHandle,
    /// The message, copied into the guest.
    pub message: Vec<u8>,
    /// `file:line` where the error was raised.
    pub label: Vec<u8>,
}

/// The file of the unit now running: the top context, else `(eval)`.
pub open spec fn current_file(s: State) -> Seq<u8> {
    if s.contexts().len() == 0 {
        top_filename()
    } else {
        s.contexts().last()
    }
}

/// `file:line` of the point of execution in `s`.
pub open spec fn raise_label(s: State) -> Seq<u8> {
    current_file(s) + seq![58u8] + decimal(s.lineno().unwrap() as nat)
}

/// `file:line` of the point of execution.
pub fn current_label(s: &State) -> (r: Vec<u8>)
    requires
        s.is_open_spec(),
        s.lineno() is Some,
    ensures
        r@ == raise_label(*s),
{
    let mut r = match s.peek_context() {
        Some(c) => copy_bytes(c.filename.as_slice()),
        None => top_filename_bytes(),
    };
    r.push(58u8);
    let line = match s.current_line() {
        Some(n) => n,
        None => 0,
    };
    push_decimal(&mut r, line);
    r
}

/// Raises `exception` into the guest: resolves its guest class through the
/// registry, copies its message into the guest, lets go of `exception`, and
/// returns the unwind that the caller hands back to the nearest protected
/// boundary. An unregistered class is fatal, so it must not reach here.
pub fn raise<E: RubyException>(interp: &Artichoke, exception: E) -> (u: Unwind)
    requires
        interp.state.wf(),
        interp.state.is_open_spec(),
        registered_rclass(interp.state, exception.spec_key()) is Some,
    ensures
        u.class == registered_rclass(interp.state, exception.spec_key()).unwrap(),
        u.message@ == exception.spec_message(),
        u.label@ == raise_label(interp.state),
{
    proof {
        interp.state.lemma_wf_open();
    }
    let eclass = match exception.rclass(interp) {
        Some(c) => c,
        None => vstd::pervasive::unreached(),
    };
    let message = copy_bytes(exception.message());
    let label = current_label(&interp.state);
    Unwind { class: eclass, message, label }
}

/// `label: message (class)` as bytes.
pub open spec fn display_form(label: Seq<u8>, message: Seq<u8>, class: Seq<u8>) -> Seq<u8> {
    label + seq![58u8, 32u8] + message + seq![32u8, 40u8] + class + seq![41u8]
}

/// `label: message (class)`.
pub fn display_bytes(label: &[u8], message: &[u8], class: &[u8]) -> (r: Vec<u8>)
    ensures
        r@ == display_form(label@, message@, class@),
{
    let mut r = copy_bytes(label);
    r.push(58u8);
    r.push(32u8);
    extend_bytes(&mut r, message);
    r.push(32u8);
    r.push(40u8);
    extend_bytes(&mut r, class);
    r.push(41u8);
    assert(r@ =~= display_form(label@, message@, class@));
    r
}

/// The guest name of class `h` in `s`; empty when `s` has no such class.
pub open spec fn guest_class_name(s: State, h: ClassHandle) -> Seq<u8> {
    if s.is_open_spec() && s.spec_vm().unwrap().has_class(h) {
        s.spec_vm().unwrap().spec_class_name(h)
    } else {
        Seq::empty()
    }
}

/// A guest error as the host sees it once it has been caught.
pub struct Exception {
    pub class: String,
    pub message: String,
    pub backtrace: Option<Vec<String>>,
    pub display: String,
}

impl Exception {
    pub fn new(class: &str, message: &str, backtrace: Option<Vec<String>>, display: &str) -> (r:
        Exception)
        ensures
            r.class@ == class@,
            r.message@ == message@,
            r.backtrace == backtrace,
            r.display@ == display@,
    {
        Exception {
            class: class.to_owned(),
            message: message.to_owned(),
            backtrace,
            display: display.to_owned(),
        }
    }

    /// The caught error `u` of interpreter state `s`: class name, message,
    /// where it was raised, and `label: message (class)`.
    pub fn from_unwind(s: &State, u: &Unwind) -> (r: Exception)
        ensures
            r.class@ == utf8_lossy(guest_class_name(*s, u.class)),
            r.message@ == utf8_lossy(u.message@),
            r.backtrace matches Some(b) && b@.len() == 1 && b@[0]@ == utf8_lossy(u.label@),
            r.display@ == utf8_lossy(
                display_form(u.label@, u.message@, guest_class_name(*s, u.class)),
            ),
            is_ascii_bytes(display_form(u.label@, u.message@, guest_class_name(*s, u.class)))
                ==> r.display@ == ascii_chars(
                display_form(u.label@, u.message@, guest_class_name(*s, u.class)),
            ),
    {
        let empty: Vec<u8> = Vec::new();
        let class: &[u8] = match s.class_name(u.class) {
            Some(n) => n,
            None => empty.as_slice(),
        };
        assert(class@ == guest_class_name(*s, u.class));
        let display = display_bytes(u.label.as_slice(), u.message.as_slice(), class);
        let mut trace: Vec<String> = Vec::new();
        trace.push(lossy_string(u.label.as_slice()));
        Exception {
            class: lossy_string(class),
            message: lossy_string(u.message.as_slice()),
            backtrace: Some(trace),
            display: lossy_string(display.as_slice()),
        }
    }

    /// The display form, `label: message (class)`.
    pub fn to_string(&self) -> (r: String)
        ensures
            r@ == self.display@,
    {
        self.display.clone()
    }

    /// The class name.
    pub fn name(&self) -> (r: &str)
        ensures
            r@ == self.class@,
    {
        self.class.as_str()
    }
}

/// The guest class registered for builtin kind `k`.
pub open spec fn kind_rclass(s: State, k: ExceptionKind) -> Option<ClassHandle> {
    registered_rclass(s, TypeKey::Exception(k))
}

/// Every builtin kind is registered under its name, with a guest class whose
/// superclass is the guest class of the kind's parent.
pub open spec fn hierarchy_installed(s: State) -> bool {
    s.is_open_spec() && installed_edges(s) && installed_names(s)
}

/// The guest class of each registered builtin kind sits under the guest
/// class of the kind's parent.
pub open spec fn installed_edges(s: State) -> bool {
    forall|k: ExceptionKind| #[trigger]
        kind_rclass(s, k) is Some ==> (s.spec_vm().unwrap().has_class(kind_rclass(s, k).unwrap())
            && s.class_table()[kind_rclass(s, k).unwrap().index as int] == (
            k.spec_name().spec_bytes(),
            match k.parent() {
                Some(p) => kind_rclass(s, p),
                None => None,
            },
        ))
}

/// Each builtin kind is registered under its name, with a guest class.
pub open spec fn installed_names(s: State) -> bool {
    forall|k: ExceptionKind|
        #![trigger registered_name(s, TypeKey::Exception(k))]
        registered_name(s, TypeKey::Exception(k)) == k.spec_name().spec_bytes() && kind_rclass(
            s,
            k,
        ) is Some
}

/// Whether the root of the hierarchy has been registered.
pub open spec fn bootstrapped(s: State) -> bool {
    s.class_registry().contains_key(TypeKey::Exception(ExceptionKind::Exception).spec_id())
}

/// What a bootstrap call that took `pre` to `post` with result `r` did.
pub open spec fn bootstrap_post(pre: State, post: State, r: Result<(), ArtichokeError>) -> bool {
    &&& post.wf()
    &&& post.same_session(&pre)
    &&& post.lineno() == pre.lineno()
    &&& post.module_registry() == pre.module_registry()
    &&& if bootstrapped(pre) {
        &&& r is Ok
        &&& post.spec_vm() == pre.spec_vm()
        &&& post.class_registry() == pre.class_registry()
    } else if !pre.is_open_spec() {
        &&& r == Err::<(), ArtichokeError>(ArtichokeError::Uninitialized)
        &&& post.spec_vm() == pre.spec_vm()
        &&& post.class_registry() == pre.class_registry()
    } else {
        &&& r is Ok
        &&& hierarchy_installed(post)
        &&& post.class_table().len() == pre.class_table().len() + KIND_COUNT
        &&& pre.class_table().is_prefix_of(post.class_table())
        &&& post.symbol_table() == pre.symbol_table()
        &&& forall|id: u64|
            id >= KIND_COUNT ==> #[trigger] post.class_registry().contains_key(id)
                == pre.class_registry().contains_key(id) && (pre.class_registry().contains_key(
                id,
            ) ==> post.class_registry()[id] == pre.class_registry()[id])
    }
}

/// The guest parent handle of the kind at position `j`, given the handles
/// made for the positions before it.
pub open spec fn parent_handle(j: nat, handles: Seq<ClassHandle>) -> Option<ClassHandle> {
    match ExceptionKind::spec_at(j).parent() {
        Some(p) => Some(handles[p.index() as int]),
        None => None,
    }
}

/// Builds the builtin exception hierarchy as `init` does and then loads
/// `source`, the hierarchy's guest-side definitions. Does nothing when the
/// root is registered already; otherwise the result is `Uninitialized` on a
/// closed interpreter, else that of loading the source.
pub fn init_with_source<G: Guest>(interp: &mut Artichoke, guest: &mut G, source: &[u8]) -> (r:
    Result<(), ArtichokeError>)
    requires
        old(interp).state.wf(),
    ensures
        final(interp).state.contexts() == old(interp).state.contexts(),
        bootstrapped(old(interp).state) ==> r is Ok && final(interp).state.spec_vm() == old(
            interp,
        ).state.spec_vm() && final(interp).state.class_registry() == old(
            interp,
        ).state.class_registry(),
        !bootstrapped(old(interp).state) && !old(interp).state.is_open_spec() ==> r == Err::<
            (),
            ArtichokeError,
        >(ArtichokeError::Uninitialized),
        !bootstrapped(old(interp).state) && old(interp).state.is_open_spec() ==> exists|
            o: Result<Value, Unwind>,
        | #[trigger] loaded_as(final(interp).state, o, r),
{
    if interp.state.class_spec(TypeKey::Exception(ExceptionKind::Exception)).is_some() {
        return Ok(());
    }
    match init(interp) {
        Ok(()) => {},
        Err(e) => {
            return Err(e);
        },
    }
    load_source(interp, guest, source)
}

/// The first `i` kinds of bootstrap order have guest classes, made in
/// order from position `base` of the class table of `s`.
pub open spec fn defined_upto(s: State, handles: Seq<ClassHandle>, base: nat, i: int) -> bool {
    forall|j: int|
        0 <= j < i ==> #[trigger] handles[j].index == base + j && s.class_table()[base + j] == (
            ExceptionKind::spec_at(j as nat).spec_name().spec_bytes(),
            parent_handle(j as nat, handles),
        )
}

/// The first `i` kinds of bootstrap order are registered under their names
/// with the guest classes in `handles`.
pub open spec fn registered_upto(s: State, handles: Seq<ClassHandle>, i: int) -> bool {
    forall|j: int|
        0 <= j < i ==> #[trigger] s.class_registry().contains_key(j as u64)
            && s.class_registry()[j as u64].name@ == ExceptionKind::spec_at(
            j as nat,
        ).spec_name().spec_bytes() && s.class_registry()[j as u64].rclass == Some(handles[j])
}

/// Registry slots from `i` on are as in `pre`.
pub open spec fn registry_kept_from(s: State, pre: State, i: int) -> bool {
    forall|id: u64|
        id >= i ==> #[trigger] s.class_registry().contains_key(id)
            == pre.class_registry().contains_key(id) && (pre.class_registry().contains_key(id)
            ==> s.class_registry()[id] == pre.class_registry()[id])
}

/// Builds the builtin exception hierarchy: defines each class in the guest
/// under its parent, then registers each. Does nothing when the root is
/// registered already.
pub fn init(interp: &mut Artichoke) -> (r: Result<(), ArtichokeError>)
    requires
        old(interp).state.wf(),
    ensures
        bootstrap_post(old(interp).state, final(interp).state, r),
{
    if interp.state.class_spec(TypeKey::Exception(ExceptionKind::Exception)).is_some() {
        return Ok(());
    }
    if !interp.state.is_open() {
        return Err(ArtichokeError::Uninitialized);
    }
    let ghost pre = interp.state;
    let ghost base = pre.class_table().len();
    let mut handles: Vec<ClassHandle> = Vec::new();
    let mut i: usize = 0;
    while i < KIND_COUNT
        invariant
            interp.state.wf(),
            interp.state.is_open_spec(),
            interp.state.same_registries(&pre),
            interp.state.same_session(&pre),
            interp.state.lineno() == pre.lineno(),
            interp.state.symbol_table() == pre.symbol_table(),
            i <= KIND_COUNT,
            handles@.len() == i,
            interp.state.class_table().len() == base + i,
            interp.state.class_table().subrange(0, base as int) == pre.class_table(),
            defined_upto(interp.state, handles@, base, i as int),
        decreases KIND_COUNT - i,
    {
        let k = ExceptionKind::at(i);
        proof {
            lemma_kind_order(k);
        }
        let superclass = match k.parent_kind() {
            Some(p) => {
                proof {
                    lemma_kind_order(p);
                }
                Some(handles[p.position()])
            },
            None => None,
        };
        let name = k.name();
        let ghost table = interp.state.class_table();
        let ghost table_state = interp.state;
        let ghost hs = handles@;
        let h = match interp.state.define_class(name.as_bytes(), superclass) {
            Ok(h) => h,
            Err(e) => {
                return Err(e);
            },
        };
        handles.push(h);
        proof {
            assert(interp.state.class_table() == table.push((name.spec_bytes(), superclass)));
            assert(handles@[i as int] == h);
            assert(h.index == base + i);
            assert(interp.state.class_table()[base + i] == (name.spec_bytes(), superclass));
            if let Some(p) = k.parent() {
                assert(handles@[p.index() as int] == hs[p.index() as int]);
            }
            assert(superclass == parent_handle(i as nat, handles@));
            assert forall|j: int| 0 <= j < i + 1 implies #[trigger] handles@[j].index == base + j
                && interp.state.class_table()[base + j] == (
                ExceptionKind::spec_at(j as nat).spec_name().spec_bytes(),
                parent_handle(j as nat, handles@),
            ) by {
                if j < i {
                    assert(handles@[j] == hs[j]);
                    assert(hs[j].index == base + j);
                    assert(defined_upto(table_state, hs, base, i as int));
                    assert(table[base + j] == interp.state.class_table()[base + j]);
                    lemma_at_index(j as nat);
                    lemma_kind_order(ExceptionKind::spec_at(j as nat));
                    if let Some(p) = ExceptionKind::spec_at(j as nat).parent() {
                        assert(handles@[p.index() as int] == hs[p.index() as int]);
                    }
                    assert(parent_handle(j as nat, handles@) == parent_handle(j as nat, hs));
                }
            }
            assert(defined_upto(interp.state, handles@, base, i + 1));
            assert(interp.state.class_table().subrange(0, base as int) =~= table.subrange(
                0,
                base as int,
            ));
        }
        i = i + 1;
    }
    let ghost mid = interp.state;
    let mut i: usize = 0;
    while i < KIND_COUNT
        invariant
            interp.state.wf(),
            interp.state.spec_vm() == mid.spec_vm(),
            interp.state.lineno() == pre.lineno(),
            interp.state.module_registry() == pre.module_registry(),
            interp.state.same_session(&pre),
            i <= KIND_COUNT,
            handles@.len() == KIND_COUNT,
            registered_upto(interp.state, handles@, i as int),
            registry_kept_from(interp.state, pre, i as int),
        decreases KIND_COUNT - i,
    {
        let k = ExceptionKind::at(i);
        let mut spec = ClassSpec::new(k.name(), None);
        spec.rclass = Some(handles[i]);
        let ghost before = interp.state.class_registry();
        interp.state.def_class(TypeKey::Exception(k), spec);
        assert(TypeKey::Exception(k).spec_id() == i as u64);
        assert(interp.state.class_registry() == before.insert(i as u64, spec));
        assert forall|j: int| 0 <= j < i + 1 implies #[trigger] interp.state.class_registry().contains_key(
            j as u64,
        ) && interp.state.class_registry()[j as u64].name@ == ExceptionKind::spec_at(
            j as nat,
        ).spec_name().spec_bytes() && interp.state.class_registry()[j as u64].rclass == Some(
            handles@[j],
        ) by {
            if j < i {
                assert(before.contains_key(j as u64));
            }
        }
        assert forall|id: u64| id >= i + 1 implies #[trigger] interp.state.class_registry().contains_key(
            id,
        ) == pre.class_registry().contains_key(id) && (pre.class_registry().contains_key(id)
            ==> interp.state.class_registry()[id] == pre.class_registry()[id]) by {
            assert(before.contains_key(id) == pre.class_registry().contains_key(id));
        }
        assert(registered_upto(interp.state, handles@, i + 1));
        assert(registry_kept_from(interp.state, pre, i + 1));
        i = i + 1;
    }
    proof {
        let post = interp.state;
        assert forall|k: ExceptionKind| #[trigger] kind_rclass(post, k) is Some implies {
            &&& post.spec_vm().unwrap().has_class(kind_rclass(post, k).unwrap())
            &&& post.class_table()[kind_rclass(post, k).unwrap().index as int] == (
                k.spec_name().spec_bytes(),
                match k.parent() {
                    Some(p) => kind_rclass(post, p),
                    None => None,
                },
            )
        } by {
            lemma_kind_order(k);
            let j = k.index() as int;
            assert(post.class_registry().contains_key(j as u64));
            if let Some(p) = k.parent() {
                lemma_kind_order(p);
                assert(post.class_registry().contains_key(p.index() as u64));
            }
        }
        assert forall|k: ExceptionKind| #[trigger]
            registered_name(post, TypeKey::Exception(k)) == k.spec_name().spec_bytes()
                && kind_rclass(post, k) is Some by {
            lemma_kind_order(k);
            assert(post.class_registry().contains_key(k.index() as u64));
        }
        assert(pre.class_table() =~= post.class_table().subrange(0, base as int));
    }
    Ok(())
}

/// Names stay registered while the registry keeps the builtin kinds' slots.
proof fn lemma_names_kept(s: State, t: State)
    requires
        installed_names(s),
        forall|k: ExceptionKind| #[trigger]
            t.class_registry().contains_key(TypeKey::Exception(k).spec_id())
                == s.class_registry().contains_key(TypeKey::Exception(k).spec_id()) && (
            s.class_registry().contains_key(TypeKey::Exception(k).spec_id()) ==> t.class_registry()[TypeKey::Exception(k).spec_id()]
                == s.class_registry()[TypeKey::Exception(k).spec_id()]),
    ensures
        installed_names(t),
{
    assert forall|k: ExceptionKind|
        #![trigger registered_name(t, TypeKey::Exception(k))]
        registered_name(t, TypeKey::Exception(k)) == k.spec_name().spec_bytes() && kind_rclass(
            t,
            k,
        ) is Some by {
        let id = TypeKey::Exception(k).spec_id();
        assert(t.class_registry().contains_key(id) == s.class_registry().contains_key(id));
        assert(registered_name(s, TypeKey::Exception(k)) == k.spec_name().spec_bytes());
    }
}

/// After a bootstrap that succeeded, starting from a state where the root
/// was not registered or where the hierarchy was installed, every edge of
/// the builtin tree holds in the guest and the root has no superclass.
pub proof fn law_init_edges(
    pre: State,
    post: State,
    r: Result<(), ArtichokeError>,
    child: ExceptionKind,
    parent: ExceptionKind,
)
    requires
        bootstrap_post(pre, post, r),
        r is Ok,
        !bootstrapped(pre) || hierarchy_installed(pre),
        child.parent() == Some(parent),
    ensures
        hierarchy_installed(post),
        kind_rclass(post, child) is Some,
        kind_rclass(post, parent) is Some,
        post.spec_vm().unwrap().spec_superclass(kind_rclass(post, child).unwrap()) == kind_rclass(
            post,
            parent,
        ),
        kind_rclass(post, ExceptionKind::Exception) is Some,
        post.spec_vm().unwrap().spec_superclass(
            kind_rclass(post, ExceptionKind::Exception).unwrap(),
        ) is None,
{
    if bootstrapped(pre) {
        assert(post.spec_vm() == pre.spec_vm());
        assert(post.class_registry() == pre.class_registry());
        assert(pre.class_table().is_prefix_of(post.class_table()));
        lemma_installed_kept(pre, post);
    }
    law_hierarchy_edges(post, child, parent);
    assert(registered_name(post, TypeKey::Exception(ExceptionKind::Exception))
        == ExceptionKind::Exception.spec_name().spec_bytes());
    assert(kind_rclass(post, ExceptionKind::Exception) is Some);
}

/// A guest error raised as a unit begins, in the state that `enter_unit`
/// made for file `filename`, is labelled `filename:1`.
pub proof fn law_label_at_unit_start(pre: State, entered: State, filename: Seq<u8>)
    requires
        entered.contexts() == pre.contexts().push(filename),
        entered.lineno() == Some(1u64),
    ensures
        raise_label(entered) == filename + seq![58u8, 49u8],
{
    assert(decimal(1) == seq![49u8]);
    assert(current_file(entered) == filename);
    assert(raise_label(entered) =~= filename + seq![58u8, 49u8]);
}

/// The hierarchy stays installed while the registry keeps the builtin
/// kinds' slots and the guest only gains classes.
pub proof fn lemma_installed_kept(s: State, t: State)
    requires
        hierarchy_installed(s),
        t.is_open_spec(),
        s.class_table().is_prefix_of(t.class_table()),
        forall|k: ExceptionKind| #[trigger]
            t.class_registry().contains_key(TypeKey::Exception(k).spec_id())
                == s.class_registry().contains_key(TypeKey::Exception(k).spec_id()) && (
            s.class_registry().contains_key(TypeKey::Exception(k).spec_id()) ==> t.class_registry()[TypeKey::Exception(k).spec_id()]
                == s.class_registry()[TypeKey::Exception(k).spec_id()]),
    ensures
        hierarchy_installed(t),
{
    assert forall|k: ExceptionKind| #[trigger] kind_rclass(t, k) is Some implies t.spec_vm().unwrap().has_class(
        kind_rclass(t, k).unwrap(),
    ) && t.class_table()[kind_rclass(t, k).unwrap().index as int] == (
        k.spec_name().spec_bytes(),
        match k.parent() {
            Some(p) => kind_rclass(t, p),
            None => None,
        },
    ) by {
        assert(t.class_registry().contains_key(TypeKey::Exception(k).spec_id()));
        assert(kind_rclass(s, k) is Some);
        if let Some(p) = k.parent() {
            assert(t.class_registry().contains_key(TypeKey::Exception(p).spec_id())
                == s.class_registry().contains_key(TypeKey::Exception(p).spec_id()));
            assert(registered_name(s, TypeKey::Exception(p)) == p.spec_name().spec_bytes());
            assert(kind_rclass(t, p) == kind_rclass(s, p));
        }
    }
    lemma_names_kept(s, t);
    assert(installed_edges(t));
    assert(installed_names(t));
}

/// The bootstrap is idempotent: once it has succeeded, calling it again
/// succeeds, defines no guest class and leaves the registries as they were.
pub proof fn law_bootstrap_idempotent(
    s0: State,
    s1: State,
    s2: State,
    r1: Result<(), ArtichokeError>,
    r2: Result<(), ArtichokeError>,
)
    requires
        bootstrap_post(s0, s1, r1),
        bootstrap_post(s1, s2, r2),
        r1 is Ok,
    ensures
        r2 is Ok,
        bootstrapped(s2),
        s2.spec_vm() == s1.spec_vm(),
        s2.class_registry() == s1.class_registry(),
        s2.module_registry() == s1.module_registry(),
{
    if !bootstrapped(s0) {
        assert(registered_name(s1, TypeKey::Exception(ExceptionKind::Exception))
            == ExceptionKind::Exception.spec_name().spec_bytes());
    }
}

/// Each edge of the builtin tree holds in the guest: the superclass of a
/// kind's guest class is the guest class of the kind's parent.
pub proof fn law_hierarchy_edges(s: State, child: ExceptionKind, parent: ExceptionKind)
    requires
        hierarchy_installed(s),
        child.parent() == Some(parent),
    ensures
        kind_rclass(s, child) is Some,
        kind_rclass(s, parent) is Some,
        s.spec_vm().unwrap().has_class(kind_rclass(s, child).unwrap()),
        s.spec_vm().unwrap().spec_superclass(kind_rclass(s, child).unwrap()) == kind_rclass(
            s,
            parent,
        ),
{
    assert(registered_name(s, TypeKey::Exception(child)) == child.spec_name().spec_bytes());
    assert(registered_name(s, TypeKey::Exception(parent)) == parent.spec_name().spec_bytes());
    assert(kind_rclass(s, child) is Some);
}

} // verus!
