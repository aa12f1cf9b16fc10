//! The fixed tree of builtin error classes below the root `Exception`.
use vstd::prelude::*;

verus! {

/// Number of builtin error classes, the root included.
pub const KIND_COUNT: usize = 34;

/// One node of the builtin error class tree.
#[derive(Clone, Copy, Debug, PartialEq, Eq, Structural)]
pub enum ExceptionKind {
    Exception,
    NoMemoryError,
    ScriptError,
    LoadError,
    NotImplementedError,
    SyntaxError,
    SecurityError,
    SignalException,
    Interrupt,
    StandardError,
    ArgumentError,
    UncaughtThrowError,
    EncodingError,
    FiberError,
    IOError,
    EOFError,
    IndexError,
    KeyError,
    StopIteration,
    LocalJumpError,
    NameError,
    NoMethodError,
    RangeError,
    FloatDomainError,
    RegexpError,
    RuntimeError,
    FrozenError,
    SystemCallError,
    ThreadError,
    TypeError,
    ZeroDivisionError,
    SystemExit,
    SystemStackError,
    Fatal,
}

impl ExceptionKind {
    /// Position of the class in bootstrap order: every parent comes before
    /// its children.
    pub open spec fn index(self) -> nat {
        match self {
            ExceptionKind::Exception => 0,
            ExceptionKind::NoMemoryError => 1,
            ExceptionKind::ScriptError => 2,
            ExceptionKind::LoadError => 3,
            ExceptionKind::NotImplementedError => 4,
            ExceptionKind::SyntaxError => 5,
            ExceptionKind::SecurityError => 6,
            ExceptionKind::SignalException => 7,
            ExceptionKind::Interrupt => 8,
            ExceptionKind::StandardError => 9,
            ExceptionKind::ArgumentError => 10,
            ExceptionKind::UncaughtThrowError => 11,
            ExceptionKind::EncodingError => 12,
            ExceptionKind::FiberError => 13,
            ExceptionKind::IOError => 14,
            ExceptionKind::EOFError => 15,
            ExceptionKind::IndexError => 16,
            ExceptionKind::KeyError => 17,
            ExceptionKind::StopIteration => 18,
            ExceptionKind::LocalJumpError => 19,
            ExceptionKind::NameError => 20,
            ExceptionKind::NoMethodError => 21,
            ExceptionKind::RangeError => 22,
            ExceptionKind::FloatDomainError => 23,
            ExceptionKind::RegexpError => 24,
            ExceptionKind::RuntimeError => 25,
            ExceptionKind::FrozenError => 26,
            ExceptionKind::SystemCallError => 27,
            ExceptionKind::ThreadError => 28,
            ExceptionKind::TypeError => 29,
            ExceptionKind::ZeroDivisionError => 30,
            ExceptionKind::SystemExit => 31,
            ExceptionKind::SystemStackError => 32,
            ExceptionKind::Fatal => 33,
        }
    }

    /// The direct superclass in the builtin tree; `None` for the root.
    pub open spec fn parent(self) -> Option<ExceptionKind> {
        match self {
            ExceptionKind::Exception => None,
            ExceptionKind::NoMemoryError => Some(ExceptionKind::Exception),
            ExceptionKind::ScriptError => Some(ExceptionKind::Exception),
            ExceptionKind::LoadError => Some(ExceptionKind::ScriptError),
            ExceptionKind::NotImplementedError => Some(ExceptionKind::ScriptError),
            ExceptionKind::SyntaxError => Some(ExceptionKind::ScriptError),
            ExceptionKind::SecurityError => Some(ExceptionKind::Exception),
            ExceptionKind::SignalException => Some(ExceptionKind::Exception),
            ExceptionKind::Interrupt => Some(ExceptionKind::SignalException),
            ExceptionKind::StandardError => Some(ExceptionKind::Exception),
            ExceptionKind::ArgumentError => Some(ExceptionKind::StandardError),
            ExceptionKind::UncaughtThrowError => Some(ExceptionKind::ArgumentError),
            ExceptionKind::EncodingError => Some(ExceptionKind::StandardError),
            ExceptionKind::FiberError => Some(ExceptionKind::StandardError),
            ExceptionKind::IOError => Some(ExceptionKind::StandardError),
            ExceptionKind::EOFError => Some(ExceptionKind::IOError),
            ExceptionKind::IndexError => Some(ExceptionKind::StandardError),
            ExceptionKind::KeyError => Some(ExceptionKind::IndexError),
            ExceptionKind::StopIteration => Some(ExceptionKind::IndexError),
            ExceptionKind::LocalJumpError => Some(ExceptionKind::StandardError),
            ExceptionKind::NameError => Some(ExceptionKind::StandardError),
            ExceptionKind::NoMethodError => Some(ExceptionKind::NameError),
            ExceptionKind::RangeError => Some(ExceptionKind::StandardError),
            ExceptionKind::FloatDomainError => Some(ExceptionKind::RangeError),
            ExceptionKind::RegexpError => Some(ExceptionKind::StandardError),
            ExceptionKind::RuntimeError => Some(ExceptionKind::StandardError),
            ExceptionKind::FrozenError => Some(ExceptionKind::RuntimeError),
            ExceptionKind::SystemCallError => Some(ExceptionKind::StandardError),
            ExceptionKind::ThreadError => Some(ExceptionKind::StandardError),
            ExceptionKind::TypeError => Some(ExceptionKind::StandardError),
            ExceptionKind::ZeroDivisionError => Some(ExceptionKind::StandardError),
            ExceptionKind::SystemExit => Some(ExceptionKind::Exception),
            ExceptionKind::SystemStackError => Some(ExceptionKind::Exception),
            ExceptionKind::Fatal => Some(ExceptionKind::Exception),
        }
    }

    /// The guest-visible class name.
    pub open spec fn spec_name(self) -> &'static str {
        match self {
            ExceptionKind::Exception => "Exception",
            ExceptionKind::NoMemoryError => "NoMemoryError",
            ExceptionKind::ScriptError => "ScriptError",
            ExceptionKind::LoadError => "LoadError",
            ExceptionKind::NotImplementedError => "NotImplementedError",
            ExceptionKind::SyntaxError => "SyntaxError",
            ExceptionKind::SecurityError => "SecurityError",
            ExceptionKind::SignalException => "SignalException",
            ExceptionKind::Interrupt => "Interrupt",
            ExceptionKind::StandardError => "StandardError",
            ExceptionKind::ArgumentError => "ArgumentError",
            ExceptionKind::UncaughtThrowError => "UncaughtThrowError",
            ExceptionKind::EncodingError => "EncodingError",
            ExceptionKind::FiberError => "FiberError",
            ExceptionKind::IOError => "IOError",
            ExceptionKind::EOFError => "EOFError",
            ExceptionKind::IndexError => "IndexError",
            ExceptionKind::KeyError => "KeyError",
            ExceptionKind::StopIteration => "StopIteration",
            ExceptionKind::LocalJumpError => "LocalJumpError",
            ExceptionKind::NameError => "NameError",
            ExceptionKind::NoMethodError => "NoMethodError",
            ExceptionKind::RangeError => "RangeError",
            ExceptionKind::FloatDomainError => "FloatDomainError",
            ExceptionKind::RegexpError => "RegexpError",
            ExceptionKind::RuntimeError => "RuntimeError",
            ExceptionKind::FrozenError => "FrozenError",
            ExceptionKind::SystemCallError => "SystemCallError",
            ExceptionKind::ThreadError => "ThreadError",
            ExceptionKind::TypeError => "TypeError",
            ExceptionKind::ZeroDivisionError => "ZeroDivisionError",
            ExceptionKind::SystemExit => "SystemExit",
            ExceptionKind::SystemStackError => "SystemStackError",
            ExceptionKind::Fatal => "fatal",
        }
    }

    /// The kind at position `i` of bootstrap order.
    pub open spec fn spec_at(i: nat) -> ExceptionKind {
        if i == 0 {
            ExceptionKind::Exception
        } else if i == 1 {
            ExceptionKind::NoMemoryError
        } else if i == 2 {
            ExceptionKind::ScriptError
        } else if i == 3 {
            ExceptionKind::LoadError
        } else if i == 4 {
            ExceptionKind::NotImplementedError
        } else if i == 5 {
            ExceptionKind::SyntaxError
        } else if i == 6 {
            ExceptionKind::SecurityError
        } else if i == 7 {
            ExceptionKind::SignalException
        } else if i == 8 {
            ExceptionKind::Interrupt
        } else if i == 9 {
            ExceptionKind::StandardError
        } else if i == 10 {
            ExceptionKind::ArgumentError
        } else if i == 11 {
            ExceptionKind::UncaughtThrowError
        } else if i == 12 {
            ExceptionKind::EncodingError
        } else if i == 13 {
            ExceptionKind::FiberError
        } else if i == 14 {
            ExceptionKind::IOError
        } else if i == 15 {
            ExceptionKind::EOFError
        } else if i == 16 {
            ExceptionKind::IndexError
        } else if i == 17 {
            ExceptionKind::KeyError
        } else if i == 18 {
            ExceptionKind::StopIteration
        } else if i == 19 {
            ExceptionKind::LocalJumpError
        } else if i == 20 {
            ExceptionKind::NameError
        } else if i == 21 {
            ExceptionKind::NoMethodError
        } else if i == 22 {
            ExceptionKind::RangeError
        } else if i == 23 {
            ExceptionKind::FloatDomainError
        } else if i == 24 {
            ExceptionKind::RegexpError
        } else if i == 25 {
            ExceptionKind::RuntimeError
        } else if i == 26 {
            ExceptionKind::FrozenError
        } else if i == 27 {
            ExceptionKind::SystemCallError
        } else if i == 28 {
            ExceptionKind::ThreadError
        } else if i == 29 {
            ExceptionKind::TypeError
        } else if i == 30 {
            ExceptionKind::ZeroDivisionError
        } else if i == 31 {
            ExceptionKind::SystemExit
        } else if i == 32 {
            ExceptionKind::SystemStackError
        } else {
            ExceptionKind::Fatal
        }
    }

    /// The kind at position `i` of bootstrap order.
    pub fn at(i: usize) -> (r: ExceptionKind)
        requires
            i < KIND_COUNT,
        ensures
            r == Self::spec_at(i as nat),
            r.index() == i,
    {
        match i {
            0 => ExceptionKind::Exception,
            1 => ExceptionKind::NoMemoryError,
            2 => ExceptionKind::ScriptError,
            3 => ExceptionKind::LoadError,
            4 => ExceptionKind::NotImplementedError,
            5 => ExceptionKind::SyntaxError,
            6 => ExceptionKind::SecurityError,
            7 => ExceptionKind::SignalException,
            8 => ExceptionKind::Interrupt,
            9 => ExceptionKind::StandardError,
            10 => ExceptionKind::ArgumentError,
            11 => ExceptionKind::UncaughtThrowError,
            12 => ExceptionKind::EncodingError,
            13 => ExceptionKind::FiberError,
            14 => ExceptionKind::IOError,
            15 => ExceptionKind::EOFError,
            16 => ExceptionKind::IndexError,
            17 => ExceptionKind::KeyError,
            18 => ExceptionKind::StopIteration,
            19 => ExceptionKind::LocalJumpError,
            20 => ExceptionKind::NameError,
            21 => ExceptionKind::NoMethodError,
            22 => ExceptionKind::RangeError,
            23 => ExceptionKind::FloatDomainError,
            24 => ExceptionKind::RegexpError,
            25 => ExceptionKind::RuntimeError,
            26 => ExceptionKind::FrozenError,
            27 => ExceptionKind::SystemCallError,
            28 => ExceptionKind::ThreadError,
            29 => ExceptionKind::TypeError,
            30 => ExceptionKind::ZeroDivisionError,
            31 => ExceptionKind::SystemExit,
            32 => ExceptionKind::SystemStackError,
            _ => ExceptionKind::Fatal,
        }
    }

    /// The direct superclass in the builtin tree; `None` for the root.
    pub fn parent_kind(&self) -> (r: Option<ExceptionKind>)
        ensures
            r == self.parent(),
    {
        match self {
            ExceptionKind::Exception => None,
            ExceptionKind::NoMemoryError => Some(ExceptionKind::Exception),
            ExceptionKind::ScriptError => Some(ExceptionKind::Exception),
            ExceptionKind::LoadError => Some(ExceptionKind::ScriptError),
            ExceptionKind::NotImplementedError => Some(ExceptionKind::ScriptError),
            ExceptionKind::SyntaxError => Some(ExceptionKind::ScriptError),
            ExceptionKind::SecurityError => Some(ExceptionKind::Exception),
            ExceptionKind::SignalException => Some(ExceptionKind::Exception),
            ExceptionKind::Interrupt => Some(ExceptionKind::SignalException),
            ExceptionKind::StandardError => Some(ExceptionKind::Exception),
            ExceptionKind::ArgumentError => Some(ExceptionKind::StandardError),
            ExceptionKind::UncaughtThrowError => Some(ExceptionKind::ArgumentError),
            ExceptionKind::EncodingError => Some(ExceptionKind::StandardError),
            ExceptionKind::FiberError => Some(ExceptionKind::StandardError),
            ExceptionKind::IOError => Some(ExceptionKind::StandardError),
            ExceptionKind::EOFError => Some(ExceptionKind::IOError),
            ExceptionKind::IndexError => Some(ExceptionKind::StandardError),
            ExceptionKind::KeyError => Some(ExceptionKind::IndexError),
            ExceptionKind::StopIteration => Some(ExceptionKind::IndexError),
            ExceptionKind::LocalJumpError => Some(ExceptionKind::StandardError),
            ExceptionKind::NameError => Some(ExceptionKind::StandardError),
            ExceptionKind::NoMethodError => Some(ExceptionKind::NameError),
            ExceptionKind::RangeError => Some(ExceptionKind::StandardError),
            ExceptionKind::FloatDomainError => Some(ExceptionKind::RangeError),
            ExceptionKind::RegexpError => Some(ExceptionKind::StandardError),
            ExceptionKind::RuntimeError => Some(ExceptionKind::StandardError),
            ExceptionKind::FrozenError => Some(ExceptionKind::RuntimeError),
            ExceptionKind::SystemCallError => Some(ExceptionKind::StandardError),
            ExceptionKind::ThreadError => Some(ExceptionKind::StandardError),
            ExceptionKind::TypeError => Some(ExceptionKind::StandardError),
            ExceptionKind::ZeroDivisionError => Some(ExceptionKind::StandardError),
            ExceptionKind::SystemExit => Some(ExceptionKind::Exception),
            ExceptionKind::SystemStackError => Some(ExceptionKind::Exception),
            ExceptionKind::Fatal => Some(ExceptionKind::Exception),
        }
    }

    /// Position of the class in bootstrap order.
    pub fn position(&self) -> (r: usize)
        ensures
            r == self.index(),
    {
        match self {
            ExceptionKind::Exception => 0,
            ExceptionKind::NoMemoryError => 1,
            ExceptionKind::ScriptError => 2,
            ExceptionKind::LoadError => 3,
            ExceptionKind::NotImplementedError => 4,
            ExceptionKind::SyntaxError => 5,
            ExceptionKind::SecurityError => 6,
            ExceptionKind::SignalException => 7,
            ExceptionKind::Interrupt => 8,
            ExceptionKind::StandardError => 9,
            ExceptionKind::ArgumentError => 10,
            ExceptionKind::UncaughtThrowError => 11,
            ExceptionKind::EncodingError => 12,
            ExceptionKind::FiberError => 13,
            ExceptionKind::IOError => 14,
            ExceptionKind::EOFError => 15,
            ExceptionKind::IndexError => 16,
            ExceptionKind::KeyError => 17,
            ExceptionKind::StopIteration => 18,
            ExceptionKind::LocalJumpError => 19,
            ExceptionKind::NameError => 20,
            ExceptionKind::NoMethodError => 21,
            ExceptionKind::RangeError => 22,
            ExceptionKind::FloatDomainError => 23,
            ExceptionKind::RegexpError => 24,
            ExceptionKind::RuntimeError => 25,
            ExceptionKind::FrozenError => 26,
            ExceptionKind::SystemCallError => 27,
            ExceptionKind::ThreadError => 28,
            ExceptionKind::TypeError => 29,
            ExceptionKind::ZeroDivisionError => 30,
            ExceptionKind::SystemExit => 31,
            ExceptionKind::SystemStackError => 32,
            ExceptionKind::Fatal => 33,
        }
    }

    /// The guest-visible class name.
    pub fn name(&self) -> (r: &'static str)
        ensures
            r == self.spec_name(),
    {
        match self {
            ExceptionKind::Exception => "Exception",
            ExceptionKind::NoMemoryError => "NoMemoryError",
            ExceptionKind::ScriptError => "ScriptError",
            ExceptionKind::LoadError => "LoadError",
            ExceptionKind::NotImplementedError => "NotImplementedError",
            ExceptionKind::SyntaxError => "SyntaxError",
            ExceptionKind::SecurityError => "SecurityError",
            ExceptionKind::SignalException => "SignalException",
            ExceptionKind::Interrupt => "Interrupt",
            ExceptionKind::StandardError => "StandardError",
            ExceptionKind::ArgumentError => "ArgumentError",
            ExceptionKind::UncaughtThrowError => "UncaughtThrowError",
            ExceptionKind::EncodingError => "EncodingError",
            ExceptionKind::FiberError => "FiberError",
            ExceptionKind::IOError => "IOError",
            ExceptionKind::EOFError => "EOFError",
            ExceptionKind::IndexError => "IndexError",
            ExceptionKind::KeyError => "KeyError",
            ExceptionKind::StopIteration => "StopIteration",
            ExceptionKind::LocalJumpError => "LocalJumpError",
            ExceptionKind::NameError => "NameError",
            ExceptionKind::NoMethodError => "NoMethodError",
            ExceptionKind::RangeError => "RangeError",
            ExceptionKind::FloatDomainError => "FloatDomainError",
            ExceptionKind::RegexpError => "RegexpError",
            ExceptionKind::RuntimeError => "RuntimeError",
            ExceptionKind::FrozenError => "FrozenError",
            ExceptionKind::SystemCallError => "SystemCallError",
            ExceptionKind::ThreadError => "ThreadError",
            ExceptionKind::TypeError => "TypeError",
            ExceptionKind::ZeroDivisionError => "ZeroDivisionError",
            ExceptionKind::SystemExit => "SystemExit",
            ExceptionKind::SystemStackError => "SystemStackError",
            ExceptionKind::Fatal => "fatal",
        }
    }
}

/// Bootstrap order lists every kind once, and each parent before its child.
pub proof fn lemma_kind_order(k: ExceptionKind)
    ensures
        k.index() < KIND_COUNT,
        ExceptionKind::spec_at(k.index()) == k,
        k.parent() is Some ==> k.parent().unwrap().index() < k.index(),
        (k.parent() is None) == (k == ExceptionKind::Exception),
{
}

/// Every position of bootstrap order holds the kind with that index.
pub proof fn lemma_at_index(i: nat)
    requires
        i < KIND_COUNT,
    ensures
        ExceptionKind::spec_at(i).index() == i,
{
}

} // verus!
