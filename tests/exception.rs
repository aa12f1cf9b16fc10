use artichoke::eval::{Eval, Guest};
use artichoke::exception::{display_bytes, BuiltinError, Exception, RubyException, Unwind};
use artichoke::hierarchy::{ExceptionKind, KIND_COUNT};
use artichoke::state::{ClassSpec, CompileContext, State, TypeKey};
use artichoke::sys::Vm;
use artichoke::{interpreter, Artichoke, ArtichokeError, Value};

const RUN_KEY: TypeKey = TypeKey::Host(1);

struct Run;

impl Run {
    fn run(interp: &mut Artichoke) -> Result<Value, Unwind> {
        let exc = BuiltinError::new(ExceptionKind::RuntimeError, "something went wrong", false);
        Err(artichoke::exception::raise(interp, exc))
    }

    fn require(interp: &mut Artichoke) -> Result<(), ArtichokeError> {
        let mut spec = ClassSpec::new("Run", None);
        spec.rclass = Some(interp.state.define_class(b"Run", None)?);
        interp.state.def_class(RUN_KEY, spec);
        Ok(())
    }
}

/// A guest that knows one program, `Run.run`, and treats anything else as
/// an expression worth zero.
struct Script;

impl Guest for Script {
    fn execute(&mut self, interp: &mut Artichoke, code: &[u8]) -> Result<Value, Unwind> {
        if code == b"Run.run" {
            Run::run(interp)
        } else {
            Ok(Value { inner: 0 })
        }
    }
}

#[test]
fn raise() {
    let mut interp = interpreter().expect("init");
    Run::require(&mut interp).unwrap();
    let value = interp.eval(&mut Script, b"Run.run").map(|_| ());
    let expected = Exception::new(
        "RuntimeError",
        "something went wrong",
        Some(vec!["(eval):1".to_owned()]),
        "(eval):1: something went wrong (RuntimeError)",
    );
    assert_eq!(value, Err(ArtichokeError::Exec(expected.to_string())));
}

#[test]
fn raised_error_resolves_class_name() {
    let interp = interpreter().expect("init");
    let exc = BuiltinError::new(ExceptionKind::RuntimeError, "something went wrong", false);
    assert_eq!(exc.name(&interp), "RuntimeError");
    assert_eq!(exc.message(), b"something went wrong");
    let unwind = artichoke::exception::raise(&interp, exc);
    let caught = Exception::from_unwind(&interp.state, &unwind);
    assert_eq!(caught.name(), "RuntimeError");
    assert_eq!(caught.message, "something went wrong");
    assert_eq!(caught.backtrace, Some(vec!["(eval):1".to_owned()]));
    assert_eq!(caught.to_string(), "(eval):1: something went wrong (RuntimeError)");
}

#[test]
fn raise_reports_current_file_and_line() {
    let mut interp = interpreter().expect("init");
    interp.push_context(artichoke::state::EvalContext::new(b"lib/foo.rb"));
    interp.state.set_line(42);
    let exc = BuiltinError::new(ExceptionKind::KeyError, "key not found: :a", false);
    let unwind = artichoke::exception::raise(&interp, exc);
    assert_eq!(unwind.label, b"lib/foo.rb:42".to_vec());
    let caught = Exception::from_unwind(&interp.state, &unwind);
    assert_eq!(caught.to_string(), "lib/foo.rb:42: key not found: :a (KeyError)");
}

#[test]
fn name_is_empty_when_unregistered() {
    let bare = Artichoke { state: State::new(Vm::new(), CompileContext { lineno: 1 }) };
    let exc = BuiltinError::new(ExceptionKind::Fatal, "boom", true);
    assert!(exc.backtrace.is_some());
    assert_eq!(exc.name(&bare), "");
    assert_eq!(exc.rclass(&bare), None);
    let interp = interpreter().expect("init");
    assert_eq!(exc.name(&interp), "fatal");
    assert!(exc.rclass(&interp).is_some());
    let raw = BuiltinError::new_raw(ExceptionKind::TypeError, vec![0xff, b'x'], false);
    assert_eq!(raw.message(), &[0xff, b'x']);
    assert!(raw.backtrace.is_none());
}

#[test]
fn bootstrap_is_idempotent() {
    let mut interp = interpreter().expect("init");
    let count = interp.state.class_count();
    let runtime = interp
        .state
        .class_spec(TypeKey::Exception(ExceptionKind::RuntimeError))
        .and_then(|s| s.rclass());
    assert_eq!(artichoke::exception::init(&mut interp), Ok(()));
    assert_eq!(interp.state.class_count(), count);
    let again = interp
        .state
        .class_spec(TypeKey::Exception(ExceptionKind::RuntimeError))
        .and_then(|s| s.rclass());
    assert_eq!(runtime, again);
    assert!(runtime.is_some());
}

#[test]
fn bootstrap_defines_every_kind_once() {
    let interp = interpreter().expect("init");
    // the hierarchy, then Enumerator, Float and Numeric
    assert_eq!(interp.state.class_count(), KIND_COUNT + 3);
    assert_eq!(KIND_COUNT, 34);
}

#[test]
fn hierarchy_edges_match_the_table() {
    let interp = interpreter().expect("init");
    let handle = |k: ExceptionKind| {
        interp
            .state
            .class_spec(TypeKey::Exception(k))
            .and_then(|s| s.rclass())
            .expect("registered")
    };
    let edges = [
        (ExceptionKind::NoMemoryError, ExceptionKind::Exception),
        (ExceptionKind::LoadError, ExceptionKind::ScriptError),
        (ExceptionKind::Interrupt, ExceptionKind::SignalException),
        (ExceptionKind::UncaughtThrowError, ExceptionKind::ArgumentError),
        (ExceptionKind::EOFError, ExceptionKind::IOError),
        (ExceptionKind::StopIteration, ExceptionKind::IndexError),
        (ExceptionKind::NoMethodError, ExceptionKind::NameError),
        (ExceptionKind::FloatDomainError, ExceptionKind::RangeError),
        (ExceptionKind::FrozenError, ExceptionKind::RuntimeError),
        (ExceptionKind::ZeroDivisionError, ExceptionKind::StandardError),
        (ExceptionKind::Fatal, ExceptionKind::Exception),
    ];
    for (child, parent) in edges {
        assert_eq!(interp.state.superclass(handle(child)), Some(handle(parent)));
    }
    for i in 0..KIND_COUNT {
        let k = ExceptionKind::at(i);
        let expected = k.parent_kind().map(|p| handle(p));
        assert_eq!(interp.state.superclass(handle(k)), expected);
        assert_eq!(interp.state.class_name(handle(k)), Some(k.name().as_bytes()));
    }
    assert_eq!(interp.state.superclass(handle(ExceptionKind::Exception)), None);
    assert_eq!(ExceptionKind::Fatal.name(), "fatal");
}

#[test]
fn bootstrap_on_closed_interpreter_fails() {
    let mut bare = Artichoke { state: State::new(Vm::new(), CompileContext { lineno: 1 }) };
    bare.state.close();
    assert_eq!(artichoke::exception::init(&mut bare), Err(ArtichokeError::Uninitialized));
    assert_eq!(artichoke::enumerator::init(&mut bare), Err(ArtichokeError::Uninitialized));
    assert!(bare.state.class_spec(TypeKey::Exception(ExceptionKind::Exception)).is_none());
    // once bootstrapped, closing does not undo the registry: the guard holds
    let mut interp = interpreter().expect("init");
    interp.state.close();
    assert_eq!(artichoke::exception::init(&mut interp), Ok(()));
    assert_eq!(artichoke::float::init(&mut interp), Ok(()));
}

#[test]
fn display_form_is_label_message_class() {
    assert_eq!(display_bytes(b"(eval):3", b"oops", b"TypeError"), b"(eval):3: oops (TypeError)".to_vec());
    assert_eq!(display_bytes(b"", b"", b""), b":  ()".to_vec());
}

#[test]
fn caught_message_replaces_invalid_utf8() {
    let interp = interpreter().expect("init");
    let exc = BuiltinError::new_raw(ExceptionKind::ArgumentError, vec![b'b', 0xff, b'd'], false);
    let unwind = artichoke::exception::raise(&interp, exc);
    let caught = Exception::from_unwind(&interp.state, &unwind);
    assert_eq!(caught.message, "b\u{fffd}d");
    assert_eq!(caught.to_string(), "(eval):1: b\u{fffd}d (ArgumentError)");
}

#[test]
fn exception_value_display() {
    let interp = interpreter().expect("init");
    let exc = BuiltinError::new(ExceptionKind::ZeroDivisionError, "divided by 0", false);
    assert_eq!(exc.display(&interp), "ZeroDivisionError (divided by 0)");
    let bare = Artichoke { state: State::new(Vm::new(), CompileContext { lineno: 1 }) };
    assert_eq!(exc.display(&bare), " (divided by 0)");
}
