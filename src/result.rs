//! Classification of status codes into success or a diagnostic, and lifting of
//! failures into device-error kinds with the log line that reports them.

use vstd::prelude::*;

use crate::codes::{
    as_unsigned, to_unsigned,
    device_error, device_error_of, known_description, DeviceError, DXGI_ERROR_DEVICE_REMOVED,
    DXGI_ERROR_DEVICE_RESET, E_INVALIDARG, E_NOTIMPL, E_OUTOFMEMORY, E_UNEXPECTED,
};
use crate::hex::{append_hex, hex_upper};

verus! {

/// The human-readable rendering of a failure code: its fixed name when it is a
/// well-known code, else `0x` and the uppercase hexadecimal digits of the code
/// read as an unsigned 32-bit integer.
pub open spec fn diagnostic(status: i32) -> Seq<char> {
    match known_description(status) {
        Some(d) => d,
        None => "0x"@ + hex_upper(as_unsigned(status)),
    }
}

/// The error-severity log record for a failed operation.
pub open spec fn log_line(description: Seq<char>, status: i32) -> Seq<char> {
    description + " failed: "@ + diagnostic(status)
}

/// What classifying `status` gives when `value` came with it: the value on
/// success, the diagnostic on failure.
pub open spec fn classified<O>(value: O, status: i32) -> Result<O, Seq<char>> {
    if status >= 0 {
        Ok(value)
    } else {
        Err(diagnostic(status))
    }
}

/// What lifting `status` gives when `value` came with it: the value on
/// success; on failure the error kind and the single log line to emit.
pub open spec fn lifted<O>(value: O, status: i32, description: Seq<char>) -> Result<
    O,
    (DeviceError, Seq<char>),
> {
    if status >= 0 {
        Ok(value)
    } else {
        Err((device_error_of(status), log_line(description, status)))
    }
}

/// A failed device operation: what a caller can do about it, and the line
/// to log about it before the error is passed on.
pub struct DeviceFailure {
    pub kind: DeviceError,
    pub log_line: String,
}

/// The model of a classification result, with the diagnostic as characters.
pub open spec fn outcome<O>(r: Result<O, String>) -> Result<O, Seq<char>> {
    match r {
        Ok(v) => Ok(v),
        Err(e) => Err(e@),
    }
}

/// The model of a lifting result, with the log line as characters.
pub open spec fn device_outcome<O>(r: Result<O, DeviceFailure>) -> Result<
    O,
    (DeviceError, Seq<char>),
> {
    match r {
        Ok(v) => Ok(v),
        Err(f) => Err((f.kind, f.log_line@)),
    }
}

/// A status code, alone or with the value that the call returned beside it.
pub trait HResult<O>: Sized {
    /// The status code.
    spec fn status(&self) -> i32;

    /// The value handed back on success.
    spec fn payload(&self) -> O;

    /// Success with the value, or failure with the diagnostic.
    fn into_result(self) -> (r: Result<O, String>)
        ensures
            outcome(r) == classified(self.payload(), self.status()),
    ;

    /// Success with the value, or the error kind together with the line
    /// `"{description} failed: {diagnostic}"` to log.
    fn into_device_result(self, description: &str) -> (r: Result<O, DeviceFailure>)
        ensures
            device_outcome(r) == lifted(self.payload(), self.status(), description@),
    ;
}

impl HResult<()> for i32 {
    open spec fn status(&self) -> i32 {
        *self
    }

    open spec fn payload(&self) -> () {
        ()
    }

    fn into_result(self) -> (r: Result<(), String>) {
        if self >= 0 {
            return Ok(());
        }
        let description = if self == E_UNEXPECTED {
            "unexpected"
        } else if self == E_NOTIMPL {
            "not implemented"
        } else if self == E_OUTOFMEMORY {
            "out of memory"
        } else if self == E_INVALIDARG {
            "invalid argument"
        } else if self == DXGI_ERROR_DEVICE_RESET {
            "device reset"
        } else if self == DXGI_ERROR_DEVICE_REMOVED {
            "device removed"
        } else {
            let mut text = String::from_str("0x");
            append_hex(&mut text, to_unsigned(self));
            return Err(text);
        };
        Err(String::from_str(description))
    }

    fn into_device_result(self, description: &str) -> (r: Result<(), DeviceFailure>) {
        match self.into_result() {
            Ok(()) => Ok(()),
            Err(err) => {
                let mut line = String::from_str(description);
                line.append(" failed: ");
                line.append(err.as_str());
                Err(DeviceFailure { kind: device_error(self), log_line: line })
            },
        }
    }
}

impl<T> HResult<T> for (T, i32) {
    open spec fn status(&self) -> i32 {
        self.1
    }

    open spec fn payload(&self) -> T {
        self.0
    }

    fn into_result(self) -> (r: Result<T, String>) {
        let (value, status) = self;
        match status.into_result() {
            Ok(()) => Ok(value),
            Err(err) => Err(err),
        }
    }

    fn into_device_result(self, description: &str) -> (r: Result<T, DeviceFailure>) {
        let (value, status) = self;
        match status.into_device_result(description) {
            Ok(()) => Ok(value),
            Err(failure) => Err(failure),
        }
    }
}

} // verus!
