//! Type objects of the runtime and the subclass relation between them.
//!
//! The built-in exception classes form a tree below `BaseException`. Every
//! class has exactly one base, so "is an instance of" is a walk up the chain
//! of bases. [`ExcType`] is the catalog of those classes; [`PyType`] adds the
//! few non-exception types the runtime knows and is what the runtime stores
//! as an object's dynamic type.

use vstd::prelude::*;

verus! {

/// The catalog of built-in exception classes, one marker per class.
///
/// A marker carries no data. It resolves to the type object of its class
/// through [`ExcType::type_object`].
#[derive(Clone, Copy, Debug, PartialEq, Eq, Structural)]
pub enum ExcType {
    BaseException,
    Exception,
    SystemExit,
    KeyboardInterrupt,
    StopIteration,
    ArithmeticError,
    FloatingPointError,
    OverflowError,
    ZeroDivisionError,
    AssertionError,
    AttributeError,
    BufferError,
    EOFError,
    ImportError,
    LookupError,
    IndexError,
    KeyError,
    MemoryError,
    NameError,
    OSError,
    BlockingIOError,
    ChildProcessError,
    ConnectionError,
    BrokenPipeError,
    ConnectionAbortedError,
    ConnectionRefusedError,
    ConnectionResetError,
    FileExistsError,
    FileNotFoundError,
    InterruptedError,
    IsADirectoryError,
    NotADirectoryError,
    PermissionError,
    ProcessLookupError,
    TimeoutError,
    ReferenceError,
    RuntimeError,
    NotImplementedError,
    SyntaxError,
    SystemError,
    TypeError,
    ValueError,
    UnicodeError,
    UnicodeDecodeError,
    UnicodeEncodeError,
    UnicodeTranslateError,
}

impl ExcType {
    /// `EnvironmentError` is a second name of `OSError`: both resolve to the
    /// same type object.
    #[allow(non_upper_case_globals)]
    pub const EnvironmentError: ExcType = ExcType::OSError;

    /// `IOError` is a second name of `OSError`: both resolve to the same type
    /// object.
    #[allow(non_upper_case_globals)]
    pub const IOError: ExcType = ExcType::OSError;

    /// The direct base class; `BaseException` has none in the catalog.
    pub open spec fn base_spec(self) -> Option<ExcType> {
        match self {
            ExcType::BaseException => None,
            ExcType::Exception | ExcType::SystemExit | ExcType::KeyboardInterrupt => Some(
                ExcType::BaseException,
            ),
            ExcType::StopIteration
            | ExcType::ArithmeticError
            | ExcType::AssertionError
            | ExcType::AttributeError
            | ExcType::BufferError
            | ExcType::EOFError
            | ExcType::ImportError
            | ExcType::LookupError
            | ExcType::MemoryError
            | ExcType::NameError
            | ExcType::OSError
            | ExcType::ReferenceError
            | ExcType::RuntimeError
            | ExcType::SyntaxError
            | ExcType::SystemError
            | ExcType::TypeError
            | ExcType::ValueError => Some(ExcType::Exception),
            ExcType::FloatingPointError
            | ExcType::OverflowError
            | ExcType::ZeroDivisionError => Some(ExcType::ArithmeticError),
            ExcType::IndexError | ExcType::KeyError => Some(ExcType::LookupError),
            ExcType::BlockingIOError
            | ExcType::ChildProcessError
            | ExcType::ConnectionError
            | ExcType::FileExistsError
            | ExcType::FileNotFoundError
            | ExcType::InterruptedError
            | ExcType::IsADirectoryError
            | ExcType::NotADirectoryError
            | ExcType::PermissionError
            | ExcType::ProcessLookupError
            | ExcType::TimeoutError => Some(ExcType::OSError),
            ExcType::BrokenPipeError
            | ExcType::ConnectionAbortedError
            | ExcType::ConnectionRefusedError
            | ExcType::ConnectionResetError => Some(ExcType::ConnectionError),
            ExcType::NotImplementedError => Some(ExcType::RuntimeError),
            ExcType::UnicodeError => Some(ExcType::ValueError),
            ExcType::UnicodeDecodeError
            | ExcType::UnicodeEncodeError
            | ExcType::UnicodeTranslateError => Some(ExcType::UnicodeError),
        }
    }

    /// The class name as the runtime spells it.
    pub open spec fn name_spec(self) -> Seq<char> {
        match self {
            ExcType::BaseException => "BaseException"@,
            ExcType::Exception => "Exception"@,
            ExcType::SystemExit => "SystemExit"@,
            ExcType::KeyboardInterrupt => "KeyboardInterrupt"@,
            ExcType::StopIteration => "StopIteration"@,
            ExcType::ArithmeticError => "ArithmeticError"@,
            ExcType::FloatingPointError => "FloatingPointError"@,
            ExcType::OverflowError => "OverflowError"@,
            ExcType::ZeroDivisionError => "ZeroDivisionError"@,
            ExcType::AssertionError => "AssertionError"@,
            ExcType::AttributeError => "AttributeError"@,
            ExcType::BufferError => "BufferError"@,
            ExcType::EOFError => "EOFError"@,
            ExcType::ImportError => "ImportError"@,
            ExcType::LookupError => "LookupError"@,
            ExcType::IndexError => "IndexError"@,
            ExcType::KeyError => "KeyError"@,
            ExcType::MemoryError => "MemoryError"@,
            ExcType::NameError => "NameError"@,
            ExcType::OSError => "OSError"@,
            ExcType::BlockingIOError => "BlockingIOError"@,
            ExcType::ChildProcessError => "ChildProcessError"@,
            ExcType::ConnectionError => "ConnectionError"@,
            ExcType::BrokenPipeError => "BrokenPipeError"@,
            ExcType::ConnectionAbortedError => "ConnectionAbortedError"@,
            ExcType::ConnectionRefusedError => "ConnectionRefusedError"@,
            ExcType::ConnectionResetError => "ConnectionResetError"@,
            ExcType::FileExistsError => "FileExistsError"@,
            ExcType::FileNotFoundError => "FileNotFoundError"@,
            ExcType::InterruptedError => "InterruptedError"@,
            ExcType::IsADirectoryError => "IsADirectoryError"@,
            ExcType::NotADirectoryError => "NotADirectoryError"@,
            ExcType::PermissionError => "PermissionError"@,
            ExcType::ProcessLookupError => "ProcessLookupError"@,
            ExcType::TimeoutError => "TimeoutError"@,
            ExcType::ReferenceError => "ReferenceError"@,
            ExcType::RuntimeError => "RuntimeError"@,
            ExcType::NotImplementedError => "NotImplementedError"@,
            ExcType::SyntaxError => "SyntaxError"@,
            ExcType::SystemError => "SystemError"@,
            ExcType::TypeError => "TypeError"@,
            ExcType::ValueError => "ValueError"@,
            ExcType::UnicodeError => "UnicodeError"@,
            ExcType::UnicodeDecodeError => "UnicodeDecodeError"@,
            ExcType::UnicodeEncodeError => "UnicodeEncodeError"@,
            ExcType::UnicodeTranslateError => "UnicodeTranslateError"@,
        }
    }

    /// The direct base class; `BaseException` has none in the catalog.
    #[verifier::when_used_as_spec(base_spec)]
    pub fn base(self) -> (b: Option<ExcType>)
        ensures
            b == self.base_spec(),
    {
        match self {
            ExcType::BaseException => None,
            ExcType::Exception | ExcType::SystemExit | ExcType::KeyboardInterrupt => Some(
                ExcType::BaseException,
            ),
            ExcType::StopIteration
            | ExcType::ArithmeticError
            | ExcType::AssertionError
            | ExcType::AttributeError
            | ExcType::BufferError
            | ExcType::EOFError
            | ExcType::ImportError
            | ExcType::LookupError
            | ExcType::MemoryError
            | ExcType::NameError
            | ExcType::OSError
            | ExcType::ReferenceError
            | ExcType::RuntimeError
            | ExcType::SyntaxError
            | ExcType::SystemError
            | ExcType::TypeError
            | ExcType::ValueError => Some(ExcType::Exception),
            ExcType::FloatingPointError
            | ExcType::OverflowError
            | ExcType::ZeroDivisionError => Some(ExcType::ArithmeticError),
            ExcType::IndexError | ExcType::KeyError => Some(ExcType::LookupError),
            ExcType::BlockingIOError
            | ExcType::ChildProcessError
            | ExcType::ConnectionError
            | ExcType::FileExistsError
            | ExcType::FileNotFoundError
            | ExcType::InterruptedError
            | ExcType::IsADirectoryError
            | ExcType::NotADirectoryError
            | ExcType::PermissionError
            | ExcType::ProcessLookupError
            | ExcType::TimeoutError => Some(ExcType::OSError),
            ExcType::BrokenPipeError
            | ExcType::ConnectionAbortedError
            | ExcType::ConnectionRefusedError
            | ExcType::ConnectionResetError => Some(ExcType::ConnectionError),
            ExcType::NotImplementedError => Some(ExcType::RuntimeError),
            ExcType::UnicodeError => Some(ExcType::ValueError),
            ExcType::UnicodeDecodeError
            | ExcType::UnicodeEncodeError
            | ExcType::UnicodeTranslateError => Some(ExcType::UnicodeError),
        }
    }

    /// The class name as the runtime spells it.
    pub fn name(self) -> (s: &'static str)
        ensures
            s@ == self.name_spec(),
    {
        match self {
            ExcType::BaseException => "BaseException",
            ExcType::Exception => "Exception",
            ExcType::SystemExit => "SystemExit",
            ExcType::KeyboardInterrupt => "KeyboardInterrupt",
            ExcType::StopIteration => "StopIteration",
            ExcType::ArithmeticError => "ArithmeticError",
            ExcType::FloatingPointError => "FloatingPointError",
            ExcType::OverflowError => "OverflowError",
            ExcType::ZeroDivisionError => "ZeroDivisionError",
            ExcType::AssertionError => "AssertionError",
            ExcType::AttributeError => "AttributeError",
            ExcType::BufferError => "BufferError",
            ExcType::EOFError => "EOFError",
            ExcType::ImportError => "ImportError",
            ExcType::LookupError => "LookupError",
            ExcType::IndexError => "IndexError",
            ExcType::KeyError => "KeyError",
            ExcType::MemoryError => "MemoryError",
            ExcType::NameError => "NameError",
            ExcType::OSError => "OSError",
            ExcType::BlockingIOError => "BlockingIOError",
            ExcType::ChildProcessError => "ChildProcessError",
            ExcType::ConnectionError => "ConnectionError",
            ExcType::BrokenPipeError => "BrokenPipeError",
            ExcType::ConnectionAbortedError => "ConnectionAbortedError",
            ExcType::ConnectionRefusedError => "ConnectionRefusedError",
            ExcType::ConnectionResetError => "ConnectionResetError",
            ExcType::FileExistsError => "FileExistsError",
            ExcType::FileNotFoundError => "FileNotFoundError",
            ExcType::InterruptedError => "InterruptedError",
            ExcType::IsADirectoryError => "IsADirectoryError",
            ExcType::NotADirectoryError => "NotADirectoryError",
            ExcType::PermissionError => "PermissionError",
            ExcType::ProcessLookupError => "ProcessLookupError",
            ExcType::TimeoutError => "TimeoutError",
            ExcType::ReferenceError => "ReferenceError",
            ExcType::RuntimeError => "RuntimeError",
            ExcType::NotImplementedError => "NotImplementedError",
            ExcType::SyntaxError => "SyntaxError",
            ExcType::SystemError => "SystemError",
            ExcType::TypeError => "TypeError",
            ExcType::ValueError => "ValueError",
            ExcType::UnicodeError => "UnicodeError",
            ExcType::UnicodeDecodeError => "UnicodeDecodeError",
            ExcType::UnicodeEncodeError => "UnicodeEncodeError",
            ExcType::UnicodeTranslateError => "UnicodeTranslateError",
        }
    }

    /// Resolves the marker to the type object of its class.
    pub fn type_object(self) -> (t: PyType)
        ensures
            t == PyType::Exc(self),
    {
        PyType::Exc(self)
    }
}

/// A type object: the dynamic type of a heap object.
#[derive(Clone, Copy, Debug, PartialEq, Eq, Structural)]
pub enum PyType {
    /// The root of the hierarchy: everything is an instance of `object`.
    Object,
    /// Text.
    Str,
    /// Immutable sequences.
    Tuple,
    /// A built-in exception class.
    Exc(ExcType),
}

impl PyType {
    /// The direct base type; `object` has none.
    pub open spec fn base_spec(self) -> Option<PyType> {
        match self {
            PyType::Object => None,
            PyType::Str | PyType::Tuple => Some(PyType::Object),
            PyType::Exc(e) => match e.base_spec() {
                Some(b) => Some(PyType::Exc(b)),
                None => Some(PyType::Object),
            },
        }
    }

    /// An upper bound on the length of the chain of bases, by which the walk
    /// up the hierarchy terminates.
    pub open spec fn height(self) -> nat {
        match self {
            PyType::Object => 0,
            PyType::Str | PyType::Tuple => 1,
            PyType::Exc(e) => match e {
                ExcType::BaseException => 1,
                ExcType::Exception | ExcType::SystemExit | ExcType::KeyboardInterrupt => 2,
                ExcType::StopIteration
                | ExcType::ArithmeticError
                | ExcType::AssertionError
                | ExcType::AttributeError
                | ExcType::BufferError
                | ExcType::EOFError
                | ExcType::ImportError
                | ExcType::LookupError
                | ExcType::MemoryError
                | ExcType::NameError
                | ExcType::OSError
                | ExcType::ReferenceError
                | ExcType::RuntimeError
                | ExcType::SyntaxError
                | ExcType::SystemError
                | ExcType::TypeError
                | ExcType::ValueError => 3,
                ExcType::BrokenPipeError
                | ExcType::ConnectionAbortedError
                | ExcType::ConnectionRefusedError
                | ExcType::ConnectionResetError
                | ExcType::UnicodeDecodeError
                | ExcType::UnicodeEncodeError
                | ExcType::UnicodeTranslateError => 5,
                _ => 4,
            },
        }
    }

    /// Whether `self` is `other` or one of its subtypes: whether an object
    /// whose dynamic type is `self` passes a type check against `other`.
    pub open spec fn is_subtype_spec(self, other: PyType) -> bool
        decreases self.height(),
    {
        self == other || match self.base_spec() {
            Some(b) => b.is_subtype_spec(other),
            None => false,
        }
    }

    /// The type name as the runtime spells it.
    pub open spec fn name_spec(self) -> Seq<char> {
        match self {
            PyType::Object => "object"@,
            PyType::Str => "str"@,
            PyType::Tuple => "tuple"@,
            PyType::Exc(e) => e.name_spec(),
        }
    }

    /// The direct base type; `object` has none.
    #[verifier::when_used_as_spec(base_spec)]
    pub fn base(self) -> (b: Option<PyType>)
        ensures
            b == self.base_spec(),
    {
        match self {
            PyType::Object => None,
            PyType::Str | PyType::Tuple => Some(PyType::Object),
            PyType::Exc(e) => match e.base() {
                Some(b) => Some(PyType::Exc(b)),
                None => Some(PyType::Object),
            },
        }
    }

    /// The type name as the runtime spells it.
    pub fn name(self) -> (s: &'static str)
        ensures
            s@ == self.name_spec(),
    {
        match self {
            PyType::Object => "object",
            PyType::Str => "str",
            PyType::Tuple => "tuple",
            PyType::Exc(e) => e.name(),
        }
    }

    /// Whether `self` is `other` or one of its subtypes.
    ///
    /// Walks the chain of bases from `self` upwards until it meets `other` or
    /// runs out at `object`.
    #[verifier::when_used_as_spec(is_subtype_spec)]
    pub fn is_subtype(self, other: PyType) -> (r: bool)
        ensures
            r == self.is_subtype_spec(other),
    {
        let mut cur = self;
        loop
            invariant
                self.is_subtype_spec(other) == cur.is_subtype_spec(other),
            decreases cur.height(),
        {
            if cur == other {
                return true;
            }
            match cur.base() {
                Some(b) => {
                    cur = b;
                },
                None => {
                    return false;
                },
            }
        }
    }
}

/// Every type is a subtype of itself.
pub proof fn lemma_subtype_reflexive(t: PyType)
    ensures
        t.is_subtype_spec(t),
{
}

/// Every type is a subtype of `object`.
pub proof fn lemma_subtype_of_object(t: PyType)
    ensures
        t.is_subtype_spec(PyType::Object),
    decreases t.height(),
{
    match t.base_spec() {
        Some(b) => lemma_subtype_of_object(b),
        None => {},
    }
}

/// The subtype relation is transitive.
pub proof fn lemma_subtype_transitive(a: PyType, b: PyType, c: PyType)
    requires
        a.is_subtype_spec(b),
        b.is_subtype_spec(c),
    ensures
        a.is_subtype_spec(c),
    decreases a.height(),
{
    if a != b {
        lemma_subtype_transitive(a.base_spec().unwrap(), b, c);
    }
}

} // verus!
