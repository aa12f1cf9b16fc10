use artichoke::eval::{Eval, Guest};
use artichoke::exception::Unwind;
use artichoke::state::{ClassSpec, CompileContext, EvalContext, ModuleSpec, State, TypeKey};
use artichoke::sys::Vm;
use artichoke::text::push_decimal;
use artichoke::{interpreter, Artichoke, ArtichokeError, Value};

fn bare() -> State {
    State::new(Vm::new(), CompileContext { lineno: 1 })
}

#[test]
fn interning_is_stable_and_distinct() {
    let mut state = bare();
    let a = state.sym_intern(b"foo");
    let b = state.sym_intern(b"foo");
    let c = state.sym_intern(b"bar");
    assert_eq!(a, b);
    assert_ne!(a, c);
    assert_eq!(state.sym_intern(b"bar"), c);
    assert_eq!(state.sym_intern(b""), state.sym_intern(b""));
    assert_ne!(state.sym_intern(b""), a);
}

#[test]
fn captured_output_is_drained() {
    let mut state = bare();
    state.capture_output();
    assert!(state.puts("a"));
    assert!(state.puts("b"));
    assert_eq!(state.get_and_clear_captured_output(), "a\nb\n");
    assert_eq!(state.get_and_clear_captured_output(), "");
}

#[test]
fn print_appends_without_newline() {
    let mut state = bare();
    state.capture_output();
    assert!(state.print("x"));
    assert!(state.print("y"));
    assert!(state.puts(""));
    assert_eq!(state.get_and_clear_captured_output(), "xy\n");
}

#[test]
fn drain_without_capture_is_empty() {
    let mut state = bare();
    assert!(!state.print("to the console"));
    assert!(!state.puts("to the console"));
    assert_eq!(state.get_and_clear_captured_output(), "");
    // draining leaves capture on with an empty buffer
    assert!(state.puts("c"));
    assert_eq!(state.get_and_clear_captured_output(), "c\n");
}

#[test]
fn close_twice_is_harmless() {
    let mut state = bare();
    assert!(state.is_open());
    assert_eq!(state.current_line(), Some(1));
    state.close();
    assert!(!state.is_open());
    assert_eq!(state.current_line(), None);
    assert_eq!(state.class_count(), 0);
    state.close();
    assert!(!state.is_open());
    assert_eq!(state.define_class(b"Late", None), Err(ArtichokeError::Uninitialized));
}

#[test]
fn registry_lookup_and_overwrite() {
    let mut state = bare();
    assert!(state.class_spec(TypeKey::Host(7)).is_none());
    state.def_class(TypeKey::Host(7), ClassSpec::new("First", None));
    assert_eq!(state.class_spec(TypeKey::Host(7)).map(|s| s.name().to_vec()), Some(b"First".to_vec()));
    state.def_class(TypeKey::Host(7), ClassSpec::new("Second", Some(TypeKey::Host(8))));
    let spec = state.class_spec(TypeKey::Host(7)).unwrap();
    assert_eq!(spec.name(), b"Second");
    assert_eq!(spec.enclosing, Some(TypeKey::Host(8)));
    assert!(state.class_spec(TypeKey::Host(8)).is_none());
    assert!(state.module_spec(TypeKey::Host(7)).is_none());
    state.def_module(TypeKey::Host(7), ModuleSpec::new("Kernel", None));
    assert_eq!(state.module_spec(TypeKey::Host(7)).map(|m| m.name.clone()), Some(b"Kernel".to_vec()));
}

#[test]
fn type_keys_are_distinct() {
    let keys = [
        TypeKey::Enumerator,
        TypeKey::Float,
        TypeKey::Numeric,
        TypeKey::Host(0),
        TypeKey::Host(u32::MAX),
        TypeKey::Exception(artichoke::hierarchy::ExceptionKind::Exception),
        TypeKey::Exception(artichoke::hierarchy::ExceptionKind::Fatal),
    ];
    for (i, a) in keys.iter().enumerate() {
        for (j, b) in keys.iter().enumerate() {
            assert_eq!(a.id() == b.id(), i == j);
        }
    }
}

#[test]
fn guest_classes_and_superclasses() {
    let mut state = bare();
    let base = state.define_class(b"Base", None).unwrap();
    let derived = state.define_class(b"Derived", Some(base)).unwrap();
    assert_eq!(state.class_count(), 2);
    assert_eq!(state.superclass(derived), Some(base));
    assert_eq!(state.superclass(base), None);
    assert_eq!(state.class_name(derived), Some(&b"Derived"[..]));
}

#[test]
fn core_classes_are_registered() {
    let interp = interpreter().expect("init");
    for (key, name) in [
        (TypeKey::Enumerator, &b"Enumerator"[..]),
        (TypeKey::Float, &b"Float"[..]),
        (TypeKey::Numeric, &b"Numeric"[..]),
    ] {
        let spec = interp.state.class_spec(key).expect("registered");
        assert_eq!(spec.name(), name);
        assert_eq!(interp.state.class_name(spec.rclass().unwrap()), Some(name));
    }
}

#[test]
fn decimal_digits() {
    let mut out = b"line ".to_vec();
    push_decimal(&mut out, 1907);
    assert_eq!(out, b"line 1907".to_vec());
    let mut zero = Vec::new();
    push_decimal(&mut zero, 0);
    assert_eq!(zero, b"0".to_vec());
    let mut max = Vec::new();
    push_decimal(&mut max, u64::MAX);
    assert_eq!(max, b"18446744073709551615".to_vec());
}

/// Evaluates `depth` nested units, recording the stack depth seen at each.
struct Nest {
    seen: Vec<usize>,
}

impl Guest for Nest {
    fn execute(&mut self, interp: &mut Artichoke, code: &[u8]) -> Result<Value, Unwind> {
        self.seen.push(interp.state.context_depth());
        let n = code.len();
        if n > 1 {
            match interp.eval(self, &code[1..]) {
                Ok(v) => Ok(Value { inner: v.inner + 1 }),
                Err(_) => Ok(Value { inner: 0 }),
            }
        } else {
            Ok(Value { inner: 1 })
        }
    }
}

#[test]
fn nested_evals_balance_the_context_stack() {
    let mut interp = interpreter().expect("init");
    interp.push_context(EvalContext::new(b"outer.rb"));
    let before = interp.state.context_depth();
    let mut guest = Nest { seen: Vec::new() };
    assert_eq!(interp.eval(&mut guest, b"xxxx"), Ok(Value { inner: 4 }));
    assert_eq!(interp.state.context_depth(), before);
    assert_eq!(guest.seen, vec![2, 3, 4, 5]);
    assert_eq!(interp.peek_context().map(|c| c.filename.clone()), Some(b"outer.rb".to_vec()));
    interp.pop_context();
    assert!(interp.peek_context().is_none());
    interp.pop_context();
    assert_eq!(interp.state.context_depth(), 0);
}

/// A guest that leaves contexts behind and moves the line.
struct Sloppy;

impl Guest for Sloppy {
    fn execute(&mut self, interp: &mut Artichoke, _code: &[u8]) -> Result<Value, Unwind> {
        interp.push_context(EvalContext::new(b"stray.rb"));
        interp.state.set_line(99);
        Ok(Value { inner: 5 })
    }
}

#[test]
fn eval_puts_back_contexts_and_line() {
    let mut interp = interpreter().expect("init");
    interp.state.set_line(12);
    assert_eq!(interp.eval(&mut Sloppy, b"anything"), Ok(Value { inner: 5 }));
    assert_eq!(interp.state.context_depth(), 0);
    assert_eq!(interp.state.current_line(), Some(12));
    assert!(matches!(interp.unchecked_eval(&mut Sloppy, b"x"), Ok(Value { inner: 5 })));
    assert_eq!(interp.state.context_depth(), 0);
}

#[test]
fn eval_on_closed_interpreter() {
    let mut interp = interpreter().expect("init");
    interp.state.close();
    assert_eq!(interp.eval(&mut Sloppy, b"x"), Err(ArtichokeError::Uninitialized));
    assert_eq!(interp.state.context_depth(), 0);
}

/// A guest that raises `NameError` from line three.
struct Fail;

impl Guest for Fail {
    fn execute(&mut self, interp: &mut Artichoke, _code: &[u8]) -> Result<Value, Unwind> {
        interp.state.set_line(3);
        let exc = artichoke::exception::BuiltinError::new(
            artichoke::hierarchy::ExceptionKind::NameError,
            "undefined local variable",
            false,
        );
        Err(artichoke::exception::raise(interp, exc))
    }
}

#[test]
fn eval_named_uses_the_given_file() {
    let mut interp = interpreter().expect("init");
    let r = interp.eval_named(&mut Fail, b"x", b"script.rb");
    assert_eq!(
        r,
        Err(ArtichokeError::Exec("script.rb:3: undefined local variable (NameError)".to_owned()))
    );
    assert!(matches!(interp.unchecked_eval(&mut Fail, b"x"), Err(_)));
}

/// A guest that records each source it runs and fails on `fail`.
struct Loader {
    ran: Vec<Vec<u8>>,
}

impl Guest for Loader {
    fn execute(&mut self, interp: &mut Artichoke, code: &[u8]) -> Result<Value, Unwind> {
        self.ran.push(code.to_vec());
        if code == b"fail" {
            let exc = artichoke::exception::BuiltinError::new(
                artichoke::hierarchy::ExceptionKind::SyntaxError,
                "bad source",
                false,
            );
            Err(artichoke::exception::raise(interp, exc))
        } else {
            Ok(Value { inner: 0 })
        }
    }
}

#[test]
fn bootstrap_loads_its_source_once() {
    let mut interp = Artichoke { state: bare() };
    let mut guest = Loader { ran: Vec::new() };
    assert_eq!(artichoke::exception::init_with_source(&mut interp, &mut guest, b"defs"), Ok(()));
    assert_eq!(guest.ran, vec![b"defs".to_vec()]);
    assert_eq!(artichoke::exception::init_with_source(&mut interp, &mut guest, b"defs"), Ok(()));
    assert_eq!(guest.ran.len(), 1);
    assert_eq!(interp.state.context_depth(), 0);
}

#[test]
fn bootstrap_reports_a_failing_source() {
    let mut interp = Artichoke { state: bare() };
    let mut guest = Loader { ran: Vec::new() };
    assert_eq!(
        artichoke::exception::init_with_source(&mut interp, &mut guest, b"fail"),
        Err(ArtichokeError::Exec("(eval):1: bad source (SyntaxError)".to_owned()))
    );
    let mut closed = Artichoke { state: bare() };
    closed.state.close();
    assert_eq!(
        artichoke::exception::init_with_source(&mut closed, &mut guest, b"defs"),
        Err(ArtichokeError::Uninitialized)
    );
    assert_eq!(guest.ran.len(), 1);
}

#[test]
fn core_classes_load_their_sources() {
    let mut interp = interpreter().expect("init");
    let mut guest = Loader { ran: Vec::new() };
    // already registered by `interpreter`: nothing runs
    assert_eq!(artichoke::float::init_with_source(&mut interp, &mut guest, b"float"), Ok(()));
    assert!(guest.ran.is_empty());
    let mut fresh = interpreter().expect("init");
    fresh.state.close();
    let mut bare_interp = Artichoke { state: bare() };
    artichoke::exception::init(&mut bare_interp).unwrap();
    assert_eq!(
        artichoke::enumerator::init_with_source(&mut bare_interp, &mut guest, b"enum", b"lazy"),
        Ok(())
    );
    assert_eq!(guest.ran, vec![b"enum".to_vec(), b"lazy".to_vec()]);
    assert_eq!(
        artichoke::numeric::init_with_source(&mut bare_interp, &mut guest, b"fail"),
        Err(ArtichokeError::Exec("(eval):1: bad source (SyntaxError)".to_owned()))
    );
    assert!(bare_interp.state.class_spec(TypeKey::Numeric).is_some());
    assert_eq!(
        artichoke::float::init_with_source(&mut fresh, &mut guest, b"float"),
        Ok(())
    );
}

#[test]
fn enumerator_stops_at_the_first_failing_source() {
    let mut interp = Artichoke { state: bare() };
    artichoke::exception::init(&mut interp).unwrap();
    let mut guest = Loader { ran: Vec::new() };
    assert_eq!(
        artichoke::enumerator::init_with_source(&mut interp, &mut guest, b"fail", b"lazy"),
        Err(ArtichokeError::Exec("(eval):1: bad source (SyntaxError)".to_owned()))
    );
    assert_eq!(guest.ran, vec![b"fail".to_vec()]);
}

#[test]
fn unit_entry_and_exit() {
    let mut interp = interpreter().expect("init");
    interp.state.set_line(8);
    let saved = interp.enter_unit(b"unit.rb");
    assert_eq!(interp.state.context_depth(), 1);
    assert_eq!(interp.peek_context().map(|c| c.filename.clone()), Some(b"unit.rb".to_vec()));
    assert_eq!(interp.state.current_line(), Some(1));
    interp.leave_unit(saved);
    assert_eq!(interp.state.context_depth(), 0);
    assert_eq!(interp.state.current_line(), Some(8));
}

#[test]
fn interning_grows_the_vm_table_only_on_a_new_name() {
    let mut state = bare();
    let a = state.sym_intern(b"first");
    let b = state.sym_intern(b"second");
    assert_eq!((a, b), (0, 1));
    assert_eq!(state.sym_intern(b"first"), 0);
    assert_eq!(state.sym_intern(b"third"), 2);
}

#[test]
fn regexp_globals_counter() {
    let mut state = bare();
    assert_eq!(state.active_regexp_globals(), 0);
    state.inc_regexp_globals();
    state.inc_regexp_globals();
    assert_eq!(state.active_regexp_globals(), 2);
    state.dec_regexp_globals();
    assert_eq!(state.active_regexp_globals(), 1);
    // the counter is not touched by interning or capture
    state.sym_intern(b"x");
    state.capture_output();
    assert_eq!(state.active_regexp_globals(), 1);
}
