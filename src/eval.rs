//! Running guest source under a stack of eval contexts, with the protected
//! boundary that turns a guest error into a host error.
use vstd::prelude::*;

use crate::exception::{display_form, guest_class_name, top_filename_bytes, Exception, Unwind};
use crate::state::{define_builtin, filenames, EvalContext, State, TypeKey};
use crate::text::{ascii_chars, is_ascii_bytes, utf8_lossy};
use crate::{Artichoke, ArtichokeError, Value};

verus! {

/// Marker for a context used by `Eval`.
pub trait Context {}

impl Context for EvalContext {}

/// The guest VM's compile-and-execute primitive. It runs `code` on `interp`
/// and gives back the value of the last expression, or the guest error that
/// unwound out of it. It may call back into the host, evaluate nested source
/// and raise.
pub trait Guest {
    fn execute(&mut self, interp: &mut Artichoke, code: &[u8]) -> Result<Value, Unwind>;
}

/// `r` is what the protected boundary makes of `outcome` in state `s`: a
/// value passes through; a guest error becomes `Exec` with its display form
/// `label: message (class)`, character for character when that is ASCII.
pub open spec fn caught_as(s: State, outcome: Result<Value, Unwind>, r: Result<Value, ArtichokeError>) -> bool {
    match outcome {
        Ok(v) => r == Ok::<Value, ArtichokeError>(v),
        Err(u) => r matches Err(ArtichokeError::Exec(m)) && m@ == utf8_lossy(
            display_form(u.label@, u.message@, guest_class_name(s, u.class)),
        ) && (is_ascii_bytes(display_form(u.label@, u.message@, guest_class_name(s, u.class)))
            ==> m@ == ascii_chars(display_form(u.label@, u.message@, guest_class_name(s, u.class)))),
    }
}

/// The protected boundary: converts what the guest gave back into a host
/// result.
pub fn protect(s: &State, outcome: Result<Value, Unwind>) -> (r: Result<Value, ArtichokeError>)
    ensures
        caught_as(*s, outcome, r),
{
    match outcome {
        Ok(v) => Ok(v),
        Err(u) => {
            let e = Exception::from_unwind(s, &u);
            Err(ArtichokeError::Exec(e.to_string()))
        },
    }
}

/// `r` is what loading a source gives for guest outcome `outcome` in state
/// `s`: success when the guest returned a value, else the caught error.
pub open spec fn loaded_as(s: State, outcome: Result<Value, Unwind>, r: Result<(), ArtichokeError>) -> bool {
    match outcome {
        Ok(_) => r == Ok::<(), ArtichokeError>(()),
        Err(u) => r matches Err(ArtichokeError::Exec(m)) && m@ == utf8_lossy(
            display_form(u.label@, u.message@, guest_class_name(s, u.class)),
        ),
    }
}

/// What loading a source did, taking `pre` to `post` with result `r`: the
/// context stack is as before; a closed interpreter gives `Uninitialized`
/// and stays closed; else the result is what the guest's outcome gives.
pub open spec fn source_loaded(pre: State, post: State, r: Result<(), ArtichokeError>) -> bool {
    &&& post.contexts() == pre.contexts()
    &&& !pre.is_open_spec() ==> r == Err::<(), ArtichokeError>(ArtichokeError::Uninitialized)
        && !post.is_open_spec()
    &&& pre.is_open_spec() ==> exists|o: Result<Value, Unwind>| #[trigger] loaded_as(post, o, r)
}

/// Runs a source file as a unit named `(eval)` inside a protected boundary
/// and keeps only whether it succeeded.
pub fn load_source<G: Guest>(interp: &mut Artichoke, guest: &mut G, source: &[u8]) -> (r: Result<
    (),
    ArtichokeError,
>)
    ensures
        source_loaded(old(interp).state, final(interp).state, r),
{
    let ghost was_open = interp.state.is_open_spec();
    let name = top_filename_bytes();
    let r0 = interp.eval_named(guest, source, name.as_slice());
    let r = match r0 {
        Ok(_) => Ok(()),
        Err(e) => Err(e),
    };
    proof {
        if was_open {
            let o = choose|o: Result<Value, Unwind>| caught_as(interp.state, o, r0);
            assert(loaded_as(interp.state, o, r));
        }
    }
    r
}

/// What registering builtin class `name` for `key` and then loading its
/// source did, taking `pre` to `post` with result `r`: nothing when `key`
/// was registered already; `Uninitialized` on a closed interpreter; else
/// the class is defined and the result is that of loading the source.
pub open spec fn builtin_loaded(pre: State, post: State, key: TypeKey, r: Result<(), ArtichokeError>) -> bool {
    &&& post.contexts() == pre.contexts()
    &&& if pre.class_registry().contains_key(key.spec_id()) {
        &&& r is Ok
        &&& post.spec_vm() == pre.spec_vm()
        &&& post.class_registry() == pre.class_registry()
    } else if !pre.is_open_spec() {
        r == Err::<(), ArtichokeError>(ArtichokeError::Uninitialized)
    } else {
        exists|o: Result<Value, Unwind>| #[trigger] loaded_as(post, o, r)
    }
}

/// Registers and defines builtin class `name` for `key`, then loads
/// `source` into the guest; does nothing when `key` is registered already.
pub fn define_and_load<G: Guest>(
    interp: &mut Artichoke,
    guest: &mut G,
    key: TypeKey,
    name: &str,
    source: &[u8],
) -> (r: Result<(), ArtichokeError>)
    requires
        old(interp).state.wf(),
    ensures
        builtin_loaded(old(interp).state, final(interp).state, key, r),
{
    if interp.state.class_spec(key).is_some() {
        return Ok(());
    }
    match define_builtin(&mut interp.state, key, name) {
        Ok(()) => {},
        Err(e) => {
            return Err(e);
        },
    }
    load_source(interp, guest, source)
}

/// Interpreters that run guest source under a stack of contexts, nested
/// calls included.
pub trait Eval {
    /// File names of the context stack, bottom first.
    spec fn context_files(&self) -> Seq<Seq<u8>>;

    /// Whether the interpreter is well formed.
    spec fn ready(&self) -> bool;

    /// Whether the interpreter is open: not closed yet.
    spec fn open(&self) -> bool;

    /// Whether `r` is what the boundary makes of `outcome` here.
    spec fn caught(&self, outcome: Result<Value, Unwind>, r: Result<Value, ArtichokeError>) -> bool;

    /// Runs `code` as a unit named `(eval)`. A guest error stops at this
    /// call and comes back as a host error; the context stack is as before.
    /// On a closed interpreter nothing runs and the result is
    /// `Uninitialized`.
    fn eval<G: Guest>(&mut self, guest: &mut G, code: &[u8]) -> (r: Result<Value, ArtichokeError>)
        requires
            old(self).ready(),
        ensures
            final(self).context_files() == old(self).context_files(),
            !old(self).open() ==> r == Err::<Value, ArtichokeError>(
                ArtichokeError::Uninitialized,
            ),
            old(self).open() ==> exists|o: Result<Value, Unwind>| #[trigger]
                final(self).caught(o, r),
    ;

    /// Runs `code` like `eval`, but lets a guest error go on to the caller,
    /// which must itself run inside a protected boundary.
    fn unchecked_eval<G: Guest>(&mut self, guest: &mut G, code: &[u8]) -> (r: Result<
        Value,
        Unwind,
    >)
        requires
            old(self).ready(),
            old(self).open(),
        ensures
            final(self).context_files() == old(self).context_files(),
    ;

    /// The top of the context stack.
    fn peek_context(&self) -> (r: Option<&EvalContext>)
        ensures
            self.context_files().len() == 0 ==> r is None,
            self.context_files().len() > 0 ==> (r matches Some(c) && c.filename@
                == self.context_files().last()),
    ;

    /// Pushes `context` on the stack.
    fn push_context(&mut self, context: EvalContext)
        requires
            old(self).ready(),
        ensures
            final(self).ready(),
            final(self).context_files() == old(self).context_files().push(context.filename@),
    ;

    /// Pops the top of the stack; nothing happens on an empty stack.
    fn pop_context(&mut self)
        requires
            old(self).ready(),
        ensures
            final(self).ready(),
            final(self).context_files() == if old(self).context_files().len() == 0 {
                old(self).context_files()
            } else {
                old(self).context_files().drop_last()
            },
    ;
}

impl Artichoke {
    /// Runs `code` as a unit named `filename` inside a protected boundary.
    /// The unit starts at line one; the context stack and the line are put
    /// back afterwards, whatever the guest did to them. On a closed
    /// interpreter nothing runs.
    pub fn eval_named<G: Guest>(&mut self, guest: &mut G, code: &[u8], filename: &[u8]) -> (r:
        Result<Value, ArtichokeError>)
        ensures
            final(self).state.contexts() == old(self).state.contexts(),
            !old(self).state.is_open_spec() ==> r == Err::<Value, ArtichokeError>(
                ArtichokeError::Uninitialized,
            ) && final(self).state.spec_vm() == old(self).state.spec_vm(),
            old(self).state.is_open_spec() ==> exists|o: Result<Value, Unwind>| #[trigger]
                caught_as(final(self).state, o, r),
    {
        if !self.state.is_open() {
            return Err(ArtichokeError::Uninitialized);
        }
        let outcome = self.run_unit(guest, code, filename);
        let r = protect(&self.state, outcome);
        assert(caught_as(self.state, outcome, r));
        r
    }

    /// Pushes a context for `filename`, runs `code` from line one, and puts
    /// back the context stack and the line.
    fn run_unit<G: Guest>(&mut self, guest: &mut G, code: &[u8], filename: &[u8]) -> (r: Result<
        Value,
        Unwind,
    >)
        ensures
            final(self).state.contexts() == old(self).state.contexts(),
    {
        let saved = self.enter_unit(filename);
        let outcome = guest.execute(self, code);
        self.leave_unit(saved);
        outcome
    }

    /// Sets up the guest to run a unit named `filename`: pushes its context
    /// and starts it at line one. Returns what `leave_unit` puts back.
    pub fn enter_unit(&mut self, filename: &[u8]) -> (saved: (Vec<EvalContext>, Option<u64>))
        ensures
            old(self).state.wf() ==> final(self).state.wf(),
            final(self).state.contexts() == old(self).state.contexts().push(filename@),
            final(self).state.lineno() == (if old(self).state.lineno() is Some {
                Some(1u64)
            } else {
                None
            }),
            filenames(saved.0@) == old(self).state.contexts(),
            saved.1 == old(self).state.lineno(),
            final(self).state.spec_vm() == old(self).state.spec_vm(),
            final(self).state.same_registries(&old(self).state),
            final(self).state.captured() == old(self).state.captured(),
            final(self).state.regexp_globals() == old(self).state.regexp_globals(),
            final(self).state.symbol_cache_view() == old(self).state.symbol_cache_view(),
    {
        let saved = self.state.save_contexts();
        let line = self.state.current_line();
        self.state.push_context(EvalContext::new(filename));
        self.state.set_line(1);
        (saved, line)
    }

    /// Puts back the context stack and, on an open interpreter, the line
    /// saved by `enter_unit`, whatever the guest did to them meanwhile.
    pub fn leave_unit(&mut self, saved: (Vec<EvalContext>, Option<u64>))
        ensures
            old(self).state.wf() ==> final(self).state.wf(),
            final(self).state.contexts() == filenames(saved.0@),
            final(self).state.lineno() == (if old(self).state.lineno() is Some
                && saved.1 is Some {
                saved.1
            } else {
                old(self).state.lineno()
            }),
            final(self).state.spec_vm() == old(self).state.spec_vm(),
            final(self).state.same_registries(&old(self).state),
            final(self).state.captured() == old(self).state.captured(),
            final(self).state.regexp_globals() == old(self).state.regexp_globals(),
            final(self).state.symbol_cache_view() == old(self).state.symbol_cache_view(),
    {
        let (contexts, line) = saved;
        self.state.restore_contexts(contexts);
        match line {
            Some(l) => self.state.set_line(l),
            None => {},
        }
    }
}

impl Eval for Artichoke {
    open spec fn context_files(&self) -> Seq<Seq<u8>> {
        self.state.contexts()
    }

    open spec fn ready(&self) -> bool {
        self.state.wf()
    }

    open spec fn open(&self) -> bool {
        self.state.is_open_spec()
    }

    open spec fn caught(&self, outcome: Result<Value, Unwind>, r: Result<Value, ArtichokeError>) -> bool {
        caught_as(self.state, outcome, r)
    }

    fn eval<G: Guest>(&mut self, guest: &mut G, code: &[u8]) -> (r: Result<Value, ArtichokeError>) {
        let name = top_filename_bytes();
        let ghost was_open = self.state.is_open_spec();
        let r = self.eval_named(guest, code, name.as_slice());
        assert(!was_open ==> r == Err::<Value, ArtichokeError>(ArtichokeError::Uninitialized));
        proof {
            if was_open {
                let o = choose|o: Result<Value, Unwind>| caught_as(self.state, o, r);
                assert(self.caught(o, r));
            }
        }
        r
    }

    fn unchecked_eval<G: Guest>(&mut self, guest: &mut G, code: &[u8]) -> (r: Result<
        Value,
        Unwind,
    >) {
        let name = top_filename_bytes();
        self.run_unit(guest, code, name.as_slice())
    }

    fn peek_context(&self) -> (r: Option<&EvalContext>) {
        self.state.peek_context()
    }

    fn push_context(&mut self, context: EvalContext) {
        self.state.push_context(context);
    }

    fn pop_context(&mut self) {
        self.state.pop_context();
    }
}

} // verus!
