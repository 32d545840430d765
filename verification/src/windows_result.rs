//! Results of Win32 calls.

use crate::text::{from_utf16, utf16_encode, utf16_encoding_is_unambiguous};
use std::string::FromUtf16Error;
use vstd::prelude::*;
use vstd::slice::slice_subrange;
use vstd::std_specs::convert::FromSpecImpl;

verus! {

/// `std::io::Error`, carried as it is.
#[verifier::external_type_specification]
#[verifier::external_body]
pub struct ExIoError(std::io::Error);

/// `windows_core::Error`, carried as it is.
#[verifier::external_type_specification]
#[verifier::external_body]
pub struct ExWindowsCoreError(windows_core::Error);

/// Why a question to the system went unanswered.
#[derive(Debug)]
pub enum SystemError {
    /// The call failed and left its reason in the thread's last error.
    LastOs(std::io::Error),
    /// The call reported its reason itself.
    Windows(windows_core::Error),
    /// The call answered with text that is not UTF-16.
    Utf16(FromUtf16Error),
}

/// What a Win32 call returned, told apart by its value.
pub enum WindowsResult<T, E> {
    /// The call failed, for this reason.
    Failed(E),
    /// The call succeeded and returned this.
    Returned(T),
}

/// Calls `std::io::Error::last_os_error`. Which error it gives depends on the thread's last
/// system call, so nothing is said of it.
#[verifier::external_body]
fn last_os_error() -> std::io::Error {
    std::io::Error::last_os_error()
}

/// Whether a number that a call returned means that the call failed.
pub open spec fn call_failed(return_value: int) -> bool {
    return_value == 0
}

impl From<usize> for WindowsResult<usize, SystemError> {
    /// Zero means that the call failed.
    fn from(return_value: usize) -> (result: Self)
        ensures
            result is Failed <==> call_failed(return_value as int),
            match result {
                WindowsResult::Returned(value) => value == return_value && return_value != 0,
                WindowsResult::Failed(error) => return_value == 0 && error is LastOs,
            },
    {
        match return_value {
            0 => Self::Failed(SystemError::LastOs(last_os_error())),
            _ => Self::Returned(return_value),
        }
    }
}

// Which error comes of a zero is up to the system, so the conversions of numbers are not functions
// of the number alone: their contracts say what holds whichever error it is.
impl FromSpecImpl<usize> for WindowsResult<usize, SystemError> {
    open spec fn obeys_from_spec() -> bool {
        false
    }

    open spec fn from_spec(return_value: usize) -> Self {
        arbitrary()
    }
}

impl From<isize> for WindowsResult<isize, SystemError> {
    /// Zero means that the call failed.
    fn from(return_value: isize) -> (result: Self)
        ensures
            result is Failed <==> call_failed(return_value as int),
            match result {
                WindowsResult::Returned(value) => value == return_value && return_value != 0,
                WindowsResult::Failed(error) => return_value == 0 && error is LastOs,
            },
    {
        match return_value {
            0 => Self::Failed(SystemError::LastOs(last_os_error())),
            _ => Self::Returned(return_value),
        }
    }
}

impl FromSpecImpl<isize> for WindowsResult<isize, SystemError> {
    open spec fn obeys_from_spec() -> bool {
        false
    }

    open spec fn from_spec(return_value: isize) -> Self {
        arbitrary()
    }
}

impl From<u16> for WindowsResult<u16, SystemError> {
    /// Zero means that the call failed.
    fn from(return_value: u16) -> (result: Self)
        ensures
            result is Failed <==> call_failed(return_value as int),
            match result {
                WindowsResult::Returned(value) => value == return_value && return_value != 0,
                WindowsResult::Failed(error) => return_value == 0 && error is LastOs,
            },
    {
        match return_value {
            0 => Self::Failed(SystemError::LastOs(last_os_error())),
            _ => Self::Returned(return_value),
        }
    }
}

impl FromSpecImpl<u16> for WindowsResult<u16, SystemError> {
    open spec fn obeys_from_spec() -> bool {
        false
    }

    open spec fn from_spec(return_value: u16) -> Self {
        arbitrary()
    }
}

impl From<u32> for WindowsResult<u32, SystemError> {
    /// Zero means that the call failed.
    fn from(return_value: u32) -> (result: Self)
        ensures
            result is Failed <==> call_failed(return_value as int),
            match result {
                WindowsResult::Returned(value) => value == return_value && return_value != 0,
                WindowsResult::Failed(error) => return_value == 0 && error is LastOs,
            },
    {
        match return_value {
            0 => Self::Failed(SystemError::LastOs(last_os_error())),
            _ => Self::Returned(return_value),
        }
    }
}

impl FromSpecImpl<u32> for WindowsResult<u32, SystemError> {
    open spec fn obeys_from_spec() -> bool {
        false
    }

    open spec fn from_spec(return_value: u32) -> Self {
        arbitrary()
    }
}

impl From<i32> for WindowsResult<i32, SystemError> {
    /// Zero means that the call failed.
    fn from(return_value: i32) -> (result: Self)
        ensures
            result is Failed <==> call_failed(return_value as int),
            match result {
                WindowsResult::Returned(value) => value == return_value && return_value != 0,
                WindowsResult::Failed(error) => return_value == 0 && error is LastOs,
            },
    {
        match return_value {
            0 => Self::Failed(SystemError::LastOs(last_os_error())),
            _ => Self::Returned(return_value),
        }
    }
}

impl FromSpecImpl<i32> for WindowsResult<i32, SystemError> {
    open spec fn obeys_from_spec() -> bool {
        false
    }

    open spec fn from_spec(return_value: i32) -> Self {
        arbitrary()
    }
}

impl<T, E> From<WindowsResult<T, E>> for Result<T, E> {
    fn from(result: WindowsResult<T, E>) -> (converted: Self) {
        match result {
            WindowsResult::Failed(error) => Err(error),
            WindowsResult::Returned(ok) => Ok(ok),
        }
    }
}

impl<T, E> FromSpecImpl<WindowsResult<T, E>> for Result<T, E> {
    open spec fn obeys_from_spec() -> bool {
        true
    }

    open spec fn from_spec(result: WindowsResult<T, E>) -> Self {
        match result {
            WindowsResult::Failed(error) => Err(error),
            WindowsResult::Returned(ok) => Ok(ok),
        }
    }
}

/// A window handle as the system returned it, which may be null.
#[derive(Debug, Clone, Copy, PartialEq, Eq, Structural)]
pub struct Hwnd(pub isize);

/// Turns what a call of the `windows` crate returned into a result.
pub trait ProcessWindowsCrateResult<T>: Sized {
    fn process(self) -> Result<T, SystemError>;
}

impl ProcessWindowsCrateResult<isize> for Hwnd {
    /// A null handle means that the call failed.
    fn process(self) -> (processed: Result<isize, SystemError>)
        ensures
            processed is Err <==> call_failed(self.0 as int),
            match processed {
                Ok(hwnd) => hwnd == self.0 && hwnd != 0,
                Err(error) => self.0 == 0 && error is LastOs,
            },
    {
        if self.0 == 0 {
            Err(SystemError::LastOs(last_os_error()))
        } else {
            Ok(self.0)
        }
    }
}

impl<T> ProcessWindowsCrateResult<T> for Result<T, windows_core::Error> {
    /// The value or the error is kept.
    fn process(self) -> (processed: Result<T, SystemError>)
        ensures
            processed == match self {
                Ok(value) => Ok::<T, SystemError>(value),
                Err(error) => Err(SystemError::Windows(error)),
            },
    {
        match self {
            Ok(value) => Ok(value),
            Err(error) => Err(SystemError::Windows(error)),
        }
    }
}

/// Whether a text is the class name in a buffer, of which a call filled `returned` units.
pub open spec fn is_class_name(class: Seq<u16>, returned: u32, text: Seq<char>) -> bool {
    !call_failed(returned as int) && utf16_encode(text) == class.take(returned as int)
}

/// The class name that `RealGetWindowClassW` wrote into a buffer, given the length that it
/// returned. The name is the text whose UTF-16 encoding stands there; what the buffer holds
/// behind it does not matter.
pub fn real_window_class_w(class: &[u16], returned: u32) -> (name: Result<String, SystemError>)
    requires
        returned <= class@.len(),
    ensures
        match name {
            Ok(text) => is_class_name(class@, returned, text@),
            Err(_) => forall|text: Seq<char>| !(#[trigger] is_class_name(class@, returned, text)),
        },
        match name {
            Ok(text) => returned != 0 && utf16_encode(text@) == class@.take(returned as int),
            Err(SystemError::LastOs(_)) => returned == 0,
            Err(SystemError::Utf16(_)) => returned != 0 && forall|text: Seq<char>| #[trigger]
                utf16_encode(text) != class@.take(returned as int),
            Err(SystemError::Windows(_)) => false,
        },
{
    let len: Result<u32, SystemError> = Result::from(WindowsResult::from(returned));
    match len {
        Err(error) => Err(error),
        Ok(len) => {
            let units = slice_subrange(class, 0, len as usize);
            assert(units@ =~= class@.take(returned as int));
            match from_utf16(units) {
                Ok(text) => Ok(text),
                Err(error) => {
                    assert forall|text: Seq<char>| !(#[trigger] is_class_name(
                        class@,
                        returned,
                        text,
                    )) by {
                        assert(utf16_encode(text) != class@.take(returned as int));
                    }
                    Err(SystemError::Utf16(error))
                },
            }
        },
    }
}

/// Zero alone means that a call failed: numbers below zero are answers like others.
pub proof fn zero_alone_is_failure(return_value: int)
    ensures
        return_value < 0 || return_value > 0 ==> !call_failed(return_value),
        call_failed(0),
{
}

/// The name that was written into a buffer is read back, and no other, whatever the buffer holds
/// behind it. If nothing was written, there is no name.
pub proof fn a_class_name_is_read_back(
    text: Seq<char>,
    behind: Seq<u16>,
    returned: u32,
    other: Seq<char>,
)
    requires
        utf16_encode(text).len() == returned,
    ensures
        returned != 0 ==> (is_class_name(utf16_encode(text) + behind, returned, other) <==> other
            == text),
        !is_class_name(utf16_encode(text) + behind, 0, other),
{
    let class = utf16_encode(text) + behind;
    assert(class.take(returned as int) =~= utf16_encode(text));
    if utf16_encode(other) == utf16_encode(text) {
        utf16_encoding_is_unambiguous(other, text);
    }
}

} // verus!
