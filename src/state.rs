//! The per-interpreter host state: guest VM handles, class and module
//! registries keyed by host type, the symbol cache, the eval context stack
//! and the output capture buffer.
use std::collections::HashMap;
use vstd::prelude::*;

use vstd::string::StringSliceAdditionalSpecFns;

use crate::hierarchy::{lemma_kind_order, ExceptionKind};
use crate::sys::{ClassHandle, Sym, Vm};
use crate::text::{bytes_eq, copy_bytes};

verus! {

broadcast use vstd::std_specs::hash::group_hash_axioms;

/// Identity of a host type that the guest sees as a class or a module.
#[derive(Clone, Copy, Debug, PartialEq, Eq, Structural)]
pub enum TypeKey {
    Exception(ExceptionKind),
    Enumerator,
    Float,
    Numeric,
    /// A type defined by an embedder, told apart by its number.
    Host(u32),
}

impl TypeKey {
    /// The registry key: distinct for distinct type keys.
    pub open spec fn spec_id(self) -> u64 {
        match self {
            TypeKey::Exception(k) => k.index() as u64,
            TypeKey::Enumerator => 64,
            TypeKey::Float => 65,
            TypeKey::Numeric => 66,
            TypeKey::Host(n) => (256 + n) as u64,
        }
    }

    /// The registry key.
    pub fn id(&self) -> (r: u64)
        ensures
            r == self.spec_id(),
    {
        match self {
            TypeKey::Exception(k) => {
                proof {
                    lemma_kind_order(*k);
                }
                k.position() as u64
            },
            TypeKey::Enumerator => 64,
            TypeKey::Float => 65,
            TypeKey::Numeric => 66,
            TypeKey::Host(n) => 256 + *n as u64,
        }
    }
}

/// A class as registered for a host type.
pub struct ClassSpec {
    pub name: Vec<u8>,
    /// The registered type whose namespace encloses this class, if any.
    pub enclosing: Option<TypeKey>,
    /// The guest class defined for this spec, once it has been defined.
    pub rclass: Option<ClassHandle>,
}

impl ClassSpec {
    pub fn new(name: &str, enclosing: Option<TypeKey>) -> (r: ClassSpec)
        ensures
            r.name@ == name.spec_bytes(),
            r.enclosing == enclosing,
            r.rclass is None,
    {
        ClassSpec { name: copy_bytes(name.as_bytes()), enclosing, rclass: None }
    }

    pub fn name(&self) -> (r: &[u8])
        ensures
            r@ == self.name@,
    {
        self.name.as_slice()
    }

    pub fn rclass(&self) -> (r: Option<ClassHandle>)
        ensures
            r == self.rclass,
    {
        self.rclass
    }
}

/// A module as registered for a host type.
pub struct ModuleSpec {
    pub name: Vec<u8>,
    pub enclosing: Option<TypeKey>,
}

impl ModuleSpec {
    pub fn new(name: &str, enclosing: Option<TypeKey>) -> (r: ModuleSpec)
        ensures
            r.name@ == name.spec_bytes(),
            r.enclosing == enclosing,
    {
        ModuleSpec { name: copy_bytes(name.as_bytes()), enclosing }
    }
}

/// The compiler context handle of the guest VM.
pub struct CompileContext {
    /// Line of the unit being run, as the guest reports it.
    pub lineno: u64,
}

/// One unit of source under evaluation.
pub struct EvalContext {
    pub filename: Vec<u8>,
}

pub struct State {
    mrb: Option<Vm>,
    ctx: Option<CompileContext>,
    classes: HashMap<u64, ClassSpec>,
    modules: HashMap<u64, ModuleSpec>,
    context_stack: Vec<EvalContext>,
    active_regexp_globals: usize,
    symbol_cache: Vec<(Vec<u8>, Sym)>,
    captured_output: Option<String>,
}

impl EvalContext {
    /// A context for the unit named `filename`.
    pub fn new(filename: &[u8]) -> (r: EvalContext)
        ensures
            r.filename@ == filename@,
    {
        EvalContext { filename: copy_bytes(filename) }
    }
}

/// File names of a sequence of contexts.
pub open spec fn filenames(s: Seq<EvalContext>) -> Seq<Seq<u8>> {
    s.map_values(|c: EvalContext| c.filename@)
}

/// A deep copy of a context stack.
fn copy_contexts(v: &Vec<EvalContext>) -> (r: Vec<EvalContext>)
    ensures
        filenames(r@) == filenames(v@),
{
    let mut r: Vec<EvalContext> = Vec::new();
    let mut i: usize = 0;
    while i < v.len()
        invariant
            i <= v@.len(),
            filenames(r@) == filenames(v@.subrange(0, i as int)),
        decreases v@.len() - i,
    {
        let ghost pre = r@;
        let c = EvalContext::new(v[i].filename.as_slice());
        r.push(c);
        assert(v@.subrange(0, i + 1) =~= v@.subrange(0, i as int).push(v@[i as int]));
        assert(filenames(r@) =~= filenames(pre).push(c.filename@));
        assert(filenames(v@.subrange(0, i + 1)) =~= filenames(v@.subrange(0, i as int)).push(
            v@[i as int].filename@,
        ));
        i = i + 1;
    }
    assert(v@.subrange(0, i as int) =~= v@);
    r
}

impl State {
    /// The guest VM, while the interpreter is open.
    pub closed spec fn spec_vm(&self) -> Option<Vm> {
        self.mrb
    }

    pub open spec fn is_open_spec(&self) -> bool {
        self.spec_vm() is Some
    }

    /// The guest's current line, while the interpreter is open.
    pub closed spec fn lineno(&self) -> Option<u64> {
        match self.ctx {
            Some(c) => Some(c.lineno),
            None => None,
        }
    }

    /// Registered classes by registry key.
    pub closed spec fn class_registry(&self) -> Map<u64, ClassSpec> {
        self.classes@
    }

    /// Registered modules by registry key.
    pub closed spec fn module_registry(&self) -> Map<u64, ModuleSpec> {
        self.modules@
    }

    /// File names of the eval context stack, bottom first.
    pub closed spec fn contexts(&self) -> Seq<Seq<u8>> {
        filenames(self.context_stack@)
    }

    /// The capture buffer; `None` while output goes to the console.
    pub closed spec fn captured(&self) -> Option<Seq<char>> {
        match self.captured_output {
            Some(b) => Some(b@),
            None => None,
        }
    }

    /// The symbol cache: each name with the symbol cached for it, in the
    /// order they were cached.
    pub closed spec fn symbol_cache_view(&self) -> Seq<(Seq<u8>, Sym)> {
        self.symbol_cache@.map_values(|e: (Vec<u8>, Sym)| (e.0@, e.1))
    }

    /// Number of live regexp match globals.
    pub closed spec fn regexp_globals(&self) -> usize {
        self.active_regexp_globals
    }

    /// The interned symbols of the open VM.
    pub open spec fn symbol_table(&self) -> Seq<Seq<u8>> {
        self.spec_vm().unwrap().symbol_table()
    }

    /// The classes of the open VM.
    pub open spec fn class_table(&self) -> Seq<(Seq<u8>, Option<ClassHandle>)> {
        self.spec_vm().unwrap().class_table()
    }

    /// Both handles are set or both are cleared; every cached symbol is the
    /// VM's symbol for its name.
    pub closed spec fn wf(&self) -> bool {
        &&& (self.mrb is Some) == (self.ctx is Some)
        &&& self.mrb is Some ==> {
            &&& self.mrb.unwrap().wf()
            &&& forall|i: int|
                0 <= i < self.symbol_cache@.len() ==> {
                    &&& self.symbol_cache@[i].1 < self.symbol_table().len()
                    &&& self.symbol_table()[self.symbol_cache@[i].1 as int]
                        == self.symbol_cache@[i].0@
                }
        }
    }

    /// A well-formed open state has a compile context, and its VM has no
    /// name interned twice.
    pub proof fn lemma_wf_open(&self)
        requires
            self.wf(),
            self.is_open_spec(),
        ensures
            self.spec_vm().unwrap().wf(),
            self.lineno() is Some,
    {
    }

    /// Guest VM and compile context are as in `o`.
    pub open spec fn same_guest(&self, o: &State) -> bool {
        self.spec_vm() == o.spec_vm() && self.lineno() == o.lineno()
    }

    /// Class and module registries are as in `o`.
    pub open spec fn same_registries(&self, o: &State) -> bool {
        self.class_registry() == o.class_registry() && self.module_registry() == o.module_registry()
    }

    /// Symbol cache, context stack, capture buffer and regexp counter are as
    /// in `o`.
    pub open spec fn same_session(&self, o: &State) -> bool {
        &&& self.symbol_cache_view() == o.symbol_cache_view()
        &&& self.contexts() == o.contexts()
        &&& self.captured() == o.captured()
        &&& self.regexp_globals() == o.regexp_globals()
    }

    /// A state over the open VM `mrb` and its compile context `ctx`, with
    /// nothing registered.
    pub fn new(mrb: Vm, ctx: CompileContext) -> (r: State)
        requires
            mrb.wf(),
        ensures
            r.wf(),
            r.spec_vm() == Some(mrb),
            r.lineno() == Some(ctx.lineno),
            r.class_registry() == Map::<u64, ClassSpec>::empty(),
            r.module_registry() == Map::<u64, ModuleSpec>::empty(),
            r.contexts() == Seq::<Seq<u8>>::empty(),
            r.captured() is None,
            r.regexp_globals() == 0,
            r.symbol_cache_view() == Seq::<(Seq<u8>, Sym)>::empty(),
    {
        let r = State {
            mrb: Some(mrb),
            ctx: Some(ctx),
            classes: HashMap::new(),
            modules: HashMap::new(),
            context_stack: Vec::new(),
            active_regexp_globals: 0,
            symbol_cache: Vec::new(),
            captured_output: None,
        };
        assert(r.contexts() =~= Seq::<Seq<u8>>::empty());
        r
    }

    /// Whether the VM handle is still set.
    pub fn is_open(&self) -> (r: bool)
        ensures
            r == self.is_open_spec(),
    {
        self.mrb.is_some()
    }

    /// Starts diverting output into a fresh, empty buffer.
    pub fn capture_output(&mut self)
        requires
            old(self).wf(),
        ensures
            final(self).wf(),
            final(self).captured() == Some(Seq::<char>::empty()),
            final(self).same_guest(old(self)),
            final(self).same_registries(old(self)),
            final(self).contexts() == old(self).contexts(),
            final(self).regexp_globals() == old(self).regexp_globals(),
            final(self).symbol_cache_view() == old(self).symbol_cache_view(),
    {
        self.captured_output = Some(String::new());
    }

    /// Returns what was captured and leaves capture on with an empty buffer;
    /// empty when nothing was being captured.
    pub fn get_and_clear_captured_output(&mut self) -> (r: String)
        requires
            old(self).wf(),
        ensures
            r@ == match old(self).captured() {
                Some(b) => b,
                None => Seq::<char>::empty(),
            },
            final(self).wf(),
            final(self).captured() == Some(Seq::<char>::empty()),
            final(self).same_guest(old(self)),
            final(self).same_registries(old(self)),
            final(self).contexts() == old(self).contexts(),
            final(self).regexp_globals() == old(self).regexp_globals(),
            final(self).symbol_cache_view() == old(self).symbol_cache_view(),
    {
        let taken = self.captured_output.take();
        self.captured_output = Some(String::new());
        match taken {
            Some(b) => b,
            None => String::new(),
        }
    }

    /// Appends `s` to the capture buffer when capture is on and returns
    /// `true`; returns `false`, changing nothing, when `s` is for the console.
    pub fn print(&mut self, s: &str) -> (captured: bool)
        requires
            old(self).wf(),
        ensures
            captured == (old(self).captured() is Some),
            final(self).captured() == match old(self).captured() {
                Some(b) => Some(b + s@),
                None => None,
            },
            final(self).wf(),
            final(self).same_guest(old(self)),
            final(self).same_registries(old(self)),
            final(self).contexts() == old(self).contexts(),
            final(self).regexp_globals() == old(self).regexp_globals(),
            final(self).symbol_cache_view() == old(self).symbol_cache_view(),
    {
        match &mut self.captured_output {
            Some(b) => {
                append_str(b, s);
                true
            },
            None => false,
        }
    }

    /// Like `print`, with a newline after `s`.
    pub fn puts(&mut self, s: &str) -> (captured: bool)
        requires
            old(self).wf(),
        ensures
            captured == (old(self).captured() is Some),
            final(self).captured() == match old(self).captured() {
                Some(b) => Some(b + s@ + seq!['\n']),
                None => None,
            },
            final(self).wf(),
            final(self).same_guest(old(self)),
            final(self).same_registries(old(self)),
            final(self).contexts() == old(self).contexts(),
            final(self).regexp_globals() == old(self).regexp_globals(),
            final(self).symbol_cache_view() == old(self).symbol_cache_view(),
    {
        match &mut self.captured_output {
            Some(b) => {
                append_str(b, s);
                append_str(b, "\n");
                proof {
                    reveal_strlit("\n");
                }
                true
            },
            None => false,
        }
    }

    /// Frees the compile context and the VM, with every guest object, and
    /// clears both handles. Does nothing once they are cleared.
    pub fn close(&mut self)
        requires
            old(self).wf(),
        ensures
            closed_after(*old(self), *final(self)),
    {
        if self.mrb.is_none() {
            return;
        }
        self.ctx = None;
        self.mrb = None;
    }
    /// Registers `spec` for `key`, replacing any spec registered before.
    pub fn def_class(&mut self, key: TypeKey, spec: ClassSpec)
        requires
            old(self).wf(),
        ensures
            final(self).wf(),
            final(self).class_registry() == old(self).class_registry().insert(key.spec_id(), spec),
            final(self).module_registry() == old(self).module_registry(),
            final(self).same_guest(old(self)),
            final(self).same_session(old(self)),
    {
        let id = key.id();
        self.classes.insert(id, spec);
    }

    /// The spec registered for `key`, if any.
    pub fn class_spec(&self, key: TypeKey) -> (r: Option<&ClassSpec>)
        ensures
            r == (if self.class_registry().contains_key(key.spec_id()) {
                Some(&self.class_registry()[key.spec_id()])
            } else {
                None
            }),
    {
        let id = key.id();
        self.classes.get(&id)
    }

    /// Registers `spec` for `key`, replacing any spec registered before.
    pub fn def_module(&mut self, key: TypeKey, spec: ModuleSpec)
        requires
            old(self).wf(),
        ensures
            final(self).wf(),
            final(self).module_registry() == old(self).module_registry().insert(
                key.spec_id(),
                spec,
            ),
            final(self).class_registry() == old(self).class_registry(),
            final(self).same_guest(old(self)),
            final(self).same_session(old(self)),
    {
        let id = key.id();
        self.modules.insert(id, spec);
    }

    /// The module spec registered for `key`, if any.
    pub fn module_spec(&self, key: TypeKey) -> (r: Option<&ModuleSpec>)
        ensures
            r == (if self.module_registry().contains_key(key.spec_id()) {
                Some(&self.module_registry()[key.spec_id()])
            } else {
                None
            }),
    {
        let id = key.id();
        self.modules.get(&id)
    }

    /// The VM's symbol for `name`: from the cache, or interned by the VM and
    /// cached.
    pub fn sym_intern(&mut self, name: &[u8]) -> (s: Sym)
        requires
            old(self).wf(),
            old(self).is_open_spec(),
        ensures
            interned(*old(self), name@, *final(self), s),
    {
        let mut i: usize = 0;
        while i < self.symbol_cache.len()
            invariant
                *self == *old(self),
                self.wf(),
                self.is_open_spec(),
                i <= self.symbol_cache@.len(),
                forall|j: int| 0 <= j < i ==> self.symbol_cache_view()[j].0 != name@,
            decreases self.symbol_cache@.len() - i,
        {
            if bytes_eq(self.symbol_cache[i].0.as_slice(), name) {
                let s = self.symbol_cache[i].1;
                assert(self.symbol_table().is_prefix_of(self.symbol_table()));
                assert(self.symbol_cache_view()[i as int].0 == name@);
                return s;
            }
            i = i + 1;
        }
        let ghost cache = self.symbol_cache_view();
        assert(!cached(cache, name@)) by {
            assert forall|j: int| 0 <= j < cache.len() implies #[trigger] cache[j].0 != name@ by {}
        }
        let s = match &mut self.mrb {
            Some(vm) => vm.intern(name),
            None => 0,
        };
        let ghost table = self.symbol_table();
        self.symbol_cache.push((copy_bytes(name), s));
        assert(self.symbol_cache_view() =~= cache.push((name@, s)));
        assert forall|j: int| 0 <= j < self.symbol_cache@.len() implies {
            &&& self.symbol_cache@[j].1 < table.len()
            &&& table[self.symbol_cache@[j].1 as int] == self.symbol_cache@[j].0@
        } by {
            if j < old(self).symbol_cache@.len() {
                assert(old(self).symbol_cache@[j] == self.symbol_cache@[j]);
                assert(old(self).symbol_table()[self.symbol_cache@[j].1 as int] == table[
                    self.symbol_cache@[j].1 as int
                ]);
            }
        }
        s
    }

    /// Defines a class named `name` in the guest VM under `superclass`.
    pub fn define_class(&mut self, name: &[u8], superclass: Option<ClassHandle>) -> (r: Result<
        ClassHandle,
        crate::ArtichokeError,
    >)
        requires
            old(self).wf(),
        ensures
            final(self).wf(),
            final(self).same_registries(old(self)),
            final(self).same_session(old(self)),
            final(self).lineno() == old(self).lineno(),
            old(self).is_open_spec() ==> {
                &&& r matches Ok(h)
                &&& h.index == old(self).class_table().len()
                &&& final(self).is_open_spec()
                &&& final(self).class_table() == old(self).class_table().push((name@, superclass))
                &&& final(self).symbol_table() == old(self).symbol_table()
            },
            !old(self).is_open_spec() ==> r == Err::<ClassHandle, crate::ArtichokeError>(
                crate::ArtichokeError::Uninitialized,
            ) && final(self).spec_vm() is None,
    {
        match &mut self.mrb {
            Some(vm) => {
                let h = vm.define_class(name, superclass);
                Ok(h)
            },
            None => Err(crate::ArtichokeError::Uninitialized),
        }
    }

    /// Number of live regexp match globals.
    pub fn active_regexp_globals(&self) -> (r: usize)
        ensures
            r == self.regexp_globals(),
    {
        self.active_regexp_globals
    }

    /// Counts one more live regexp match global.
    pub fn inc_regexp_globals(&mut self)
        requires
            old(self).regexp_globals() < usize::MAX,
        ensures
            final(self).regexp_globals() == old(self).regexp_globals() + 1,
            old(self).wf() ==> final(self).wf(),
            final(self).same_guest(old(self)),
            final(self).same_registries(old(self)),
            final(self).symbol_cache_view() == old(self).symbol_cache_view(),
            final(self).contexts() == old(self).contexts(),
            final(self).captured() == old(self).captured(),
    {
        self.active_regexp_globals = self.active_regexp_globals + 1;
    }

    /// Counts one live regexp match global fewer.
    pub fn dec_regexp_globals(&mut self)
        requires
            old(self).regexp_globals() > 0,
        ensures
            final(self).regexp_globals() == old(self).regexp_globals() - 1,
            old(self).wf() ==> final(self).wf(),
            final(self).same_guest(old(self)),
            final(self).same_registries(old(self)),
            final(self).symbol_cache_view() == old(self).symbol_cache_view(),
            final(self).contexts() == old(self).contexts(),
            final(self).captured() == old(self).captured(),
    {
        self.active_regexp_globals = self.active_regexp_globals - 1;
    }

    /// Number of classes defined in the guest; zero once closed.
    pub fn class_count(&self) -> (r: usize)
        ensures
            r == (if self.is_open_spec() {
                self.class_table().len()
            } else {
                0
            }),
    {
        match &self.mrb {
            Some(vm) => vm.class_count(),
            None => 0,
        }
    }

    /// The superclass of guest class `h`; `None` for a root class, an
    /// unknown handle or a closed interpreter.
    pub fn superclass(&self, h: ClassHandle) -> (r: Option<ClassHandle>)
        ensures
            r == (if self.is_open_spec() && self.spec_vm().unwrap().has_class(h) {
                self.spec_vm().unwrap().spec_superclass(h)
            } else {
                None
            }),
    {
        match &self.mrb {
            Some(vm) => vm.superclass(h),
            None => None,
        }
    }

    /// The name of guest class `h`, if the interpreter is open and has it.
    pub fn class_name(&self, h: ClassHandle) -> (r: Option<&[u8]>)
        ensures
            self.is_open_spec() && self.spec_vm().unwrap().has_class(h) ==> (r matches Some(n)
                && n@ == self.spec_vm().unwrap().spec_class_name(h)),
            !(self.is_open_spec() && self.spec_vm().unwrap().has_class(h)) ==> r is None,
    {
        match &self.mrb {
            Some(vm) => vm.class_name(h),
            None => None,
        }
    }

    /// Pushes `c` on the context stack.
    pub fn push_context(&mut self, c: EvalContext)
        ensures
            old(self).wf() ==> final(self).wf(),
            final(self).contexts() == old(self).contexts().push(c.filename@),
            final(self).captured() == old(self).captured(),
            final(self).regexp_globals() == old(self).regexp_globals(),
            final(self).symbol_cache_view() == old(self).symbol_cache_view(),
            final(self).same_guest(old(self)),
            final(self).same_registries(old(self)),
    {
        let ghost pre = self.context_stack@;
        self.context_stack.push(c);
        assert(filenames(self.context_stack@) =~= filenames(pre).push(c.filename@));
    }

    /// Pops the top of the context stack; nothing happens on an empty stack.
    pub fn pop_context(&mut self) -> (r: Option<EvalContext>)
        requires
            old(self).wf(),
        ensures
            final(self).wf(),
            old(self).contexts().len() == 0 ==> r is None && final(self).contexts() == old(
                self,
            ).contexts(),
            old(self).contexts().len() > 0 ==> (r matches Some(c) && c.filename@ == old(
                self,
            ).contexts().last()) && final(self).contexts() == old(self).contexts().drop_last(),
            final(self).captured() == old(self).captured(),
            final(self).regexp_globals() == old(self).regexp_globals(),
            final(self).symbol_cache_view() == old(self).symbol_cache_view(),
            final(self).same_guest(old(self)),
            final(self).same_registries(old(self)),
    {
        let ghost pre = self.context_stack@;
        let r = self.context_stack.pop();
        proof {
            if pre.len() > 0 {
                assert(filenames(self.context_stack@) =~= filenames(pre).drop_last());
            }
        }
        r
    }

    /// The top of the context stack.
    pub fn peek_context(&self) -> (r: Option<&EvalContext>)
        ensures
            self.contexts().len() == 0 ==> r is None,
            self.contexts().len() > 0 ==> (r matches Some(c) && c.filename@
                == self.contexts().last()),
    {
        let n = self.context_stack.len();
        if n == 0 {
            None
        } else {
            Some(&self.context_stack[n - 1])
        }
    }

    /// Number of contexts on the stack.
    pub fn context_depth(&self) -> (r: usize)
        ensures
            r == self.contexts().len(),
    {
        self.context_stack.len()
    }

    /// A copy of the context stack.
    pub fn save_contexts(&self) -> (r: Vec<EvalContext>)
        ensures
            filenames(r@) == self.contexts(),
    {
        copy_contexts(&self.context_stack)
    }

    /// Puts back a context stack taken with `save_contexts`.
    pub fn restore_contexts(&mut self, saved: Vec<EvalContext>)
        ensures
            old(self).wf() ==> final(self).wf(),
            final(self).contexts() == filenames(saved@),
            final(self).captured() == old(self).captured(),
            final(self).regexp_globals() == old(self).regexp_globals(),
            final(self).symbol_cache_view() == old(self).symbol_cache_view(),
            final(self).same_guest(old(self)),
            final(self).same_registries(old(self)),
    {
        self.context_stack = saved;
    }

    /// The guest's current line; `None` once closed.
    pub fn current_line(&self) -> (r: Option<u64>)
        ensures
            r == self.lineno(),
    {
        match &self.ctx {
            Some(c) => Some(c.lineno),
            None => None,
        }
    }

    /// Records the guest's current line; nothing happens once closed.
    pub fn set_line(&mut self, line: u64)
        ensures
            old(self).wf() ==> final(self).wf(),
            final(self).lineno() == (if old(self).lineno() is Some {
                Some(line)
            } else {
                None
            }),
            final(self).spec_vm() == old(self).spec_vm(),
            final(self).same_registries(old(self)),
            final(self).same_session(old(self)),
    {
        match &mut self.ctx {
            Some(c) => {
                c.lineno = line;
            },
            None => {},
        }
    }
}

/// What registering a builtin class for `key` named `name` did, taking `pre`
/// to `post` with result `r`: nothing when `key` was registered already;
/// otherwise a root guest class named `name`, registered for `key`.
pub open spec fn builtin_defined(
    pre: State,
    post: State,
    key: TypeKey,
    name: Seq<u8>,
    r: Result<(), crate::ArtichokeError>,
) -> bool {
    &&& post.wf()
    &&& post.same_session(&pre)
    &&& post.lineno() == pre.lineno()
    &&& post.module_registry() == pre.module_registry()
    &&& if pre.class_registry().contains_key(key.spec_id()) {
        &&& r is Ok
        &&& post.spec_vm() == pre.spec_vm()
        &&& post.class_registry() == pre.class_registry()
    } else if !pre.is_open_spec() {
        &&& r == Err::<(), crate::ArtichokeError>(crate::ArtichokeError::Uninitialized)
        &&& post.spec_vm() == pre.spec_vm()
        &&& post.class_registry() == pre.class_registry()
    } else {
        &&& r is Ok
        &&& post.is_open_spec()
        &&& post.class_table() == pre.class_table().push((name, None))
        &&& post.symbol_table() == pre.symbol_table()
        &&& post.class_registry().contains_key(key.spec_id())
        &&& post.class_registry()[key.spec_id()].name@ == name
        &&& post.class_registry()[key.spec_id()].rclass == Some(
            ClassHandle { index: pre.class_table().len() as usize },
        )
        &&& post.class_registry().remove(key.spec_id()) == pre.class_registry().remove(
            key.spec_id(),
        )
    }
}

/// Registers a builtin class named `name` for `key` and defines it in the
/// guest, unless `key` is registered already.
pub fn define_builtin(state: &mut State, key: TypeKey, name: &str) -> (r: Result<
    (),
    crate::ArtichokeError,
>)
    requires
        old(state).wf(),
    ensures
        builtin_defined(*old(state), *final(state), key, name.spec_bytes(), r),
{
    if state.class_spec(key).is_some() {
        return Ok(());
    }
    let h = match state.define_class(name.as_bytes(), None) {
        Ok(h) => h,
        Err(e) => {
            return Err(e);
        },
    };
    let mut spec = ClassSpec::new(name, None);
    spec.rclass = Some(h);
    let ghost before = state.class_registry();
    state.def_class(key, spec);
    assert(state.class_registry().remove(key.spec_id()) =~= before.remove(key.spec_id()));
    Ok(())
}

/// What `close` did, taking `pre` to `post`: both handles cleared, nothing
/// else changed.
pub open spec fn closed_after(pre: State, post: State) -> bool {
    &&& post.wf()
    &&& post.spec_vm() is None
    &&& post.lineno() is None
    &&& post.same_registries(&pre)
    &&& post.same_session(&pre)
}

/// Closing twice is harmless: the second call is allowed, and after it the
/// handles are still cleared and nothing else has changed since the first.
pub proof fn law_close_twice(s0: State, s1: State, s2: State)
    requires
        s0.wf(),
        closed_after(s0, s1),
        closed_after(s1, s2),
    ensures
        s1.wf(),
        s1.spec_vm() is None,
        s1.lineno() is None,
        s2.spec_vm() is None,
        s2.lineno() is None,
        s2.same_registries(&s1),
        s2.same_session(&s1),
{
}

/// Whether `name` has a symbol in cache `c`.
pub open spec fn cached(c: Seq<(Seq<u8>, Sym)>, name: Seq<u8>) -> bool {
    exists|i: int| 0 <= i < c.len() && #[trigger] c[i].0 == name
}

/// `s` is what `sym_intern(name)` returned, taking `pre` to `post`: the
/// VM's symbol for `name`, with earlier symbols kept and nothing else
/// changed. A cached name leaves cache and VM as they were; otherwise the
/// VM interns it (adding it at the end when it is new) and the cache gains
/// exactly that entry.
pub open spec fn interned(pre: State, name: Seq<u8>, post: State, s: Sym) -> bool {
    &&& if cached(pre.symbol_cache_view(), name) {
        &&& post.symbol_cache_view() == pre.symbol_cache_view()
        &&& post.symbol_table() == pre.symbol_table()
    } else {
        &&& post.symbol_cache_view() == pre.symbol_cache_view().push((name, s))
        &&& pre.symbol_table().contains(name) ==> post.symbol_table() == pre.symbol_table()
        &&& !pre.symbol_table().contains(name) ==> post.symbol_table()
            == pre.symbol_table().push(name) && s == pre.symbol_table().len()
    }
    &&& post.wf()
    &&& post.is_open_spec()
    &&& s < post.symbol_table().len()
    &&& post.symbol_table()[s as int] == name
    &&& pre.symbol_table().is_prefix_of(post.symbol_table())
    &&& post.class_table() == pre.class_table()
    &&& post.lineno() == pre.lineno()
    &&& post.same_registries(&pre)
    &&& post.contexts() == pre.contexts()
    &&& post.captured() == pre.captured()
    &&& post.regexp_globals() == pre.regexp_globals()
}

/// Interning is stable and tells names apart: over two successive calls,
/// equal names get the same symbol and different names different symbols.
pub proof fn law_sym_intern(
    s0: State,
    s1: State,
    s2: State,
    a: Seq<u8>,
    b: Seq<u8>,
    x: Sym,
    y: Sym,
)
    requires
        interned(s0, a, s1, x),
        interned(s1, b, s2, y),
    ensures
        (a == b) == (x == y),
{
    s2.lemma_wf_open();
    assert(s2.symbol_table()[x as int] == a);
}

/// Relies on `String::push_str`, which appends `s` to the end of `buf`.
#[verifier::external_body]
fn append_str(buf: &mut String, s: &str)
    ensures
        final(buf)@ == old(buf)@ + s@,
{
    buf.push_str(s);
}

} // verus!
