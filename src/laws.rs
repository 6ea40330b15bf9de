//! Facts that hold of classification and lifting for every input.

use vstd::prelude::*;

use crate::codes::{
    as_unsigned,
    device_error_of, known_description, DeviceError, DXGI_ERROR_DEVICE_REMOVED,
    DXGI_ERROR_DEVICE_RESET, E_OUTOFMEMORY,
};
use crate::hex::{hex_upper, hex_value, is_upper_hex_digit, lemma_hex_upper, lemma_hex_upper_len, pow16};
use crate::result::{classified, diagnostic, lifted, log_line};

verus! {

/// A non-negative status is a success: classification and lifting both
/// succeed, and lifting leaves nothing to log.
pub proof fn law_non_negative_succeeds(status: i32, description: Seq<char>)
    requires
        status >= 0,
    ensures
        classified((), status) == Ok::<(), Seq<char>>(()),
        lifted((), status, description) == Ok::<(), (DeviceError, Seq<char>)>(()),
{
}

/// A negative status is a failure: classification gives its diagnostic, and
/// lifting gives its error kind with exactly one log line.
pub proof fn law_negative_fails(status: i32, description: Seq<char>)
    requires
        status < 0,
    ensures
        classified((), status) == Err::<(), Seq<char>>(diagnostic(status)),
        lifted((), status, description) == Err::<(), (DeviceError, Seq<char>)>(
            (device_error_of(status), log_line(description, status)),
        ),
{
}

/// A negative code without a fixed name renders as `0x` followed by one to
/// eight uppercase hexadecimal digits, which denote the code read as an
/// unsigned 32-bit integer.
pub proof fn law_unknown_code_renders_as_hex(status: i32)
    requires
        status < 0,
        known_description(status) is None,
    ensures
        diagnostic(status) == "0x"@ + hex_upper(as_unsigned(status)),
        3 <= diagnostic(status).len() <= 10,
        diagnostic(status)[0] == '0',
        diagnostic(status)[1] == 'x',
        forall|i: int|
            2 <= i < diagnostic(status).len() ==> is_upper_hex_digit(
                #[trigger] diagnostic(status)[i],
            ),
        hex_value(diagnostic(status).subrange(2, diagnostic(status).len() as int))
            == as_unsigned(status),
{
    reveal_strlit("0x");
    let n = as_unsigned(status);
    let d = diagnostic(status);
    lemma_hex_upper(n);
    reveal_with_fuel(pow16, 9);
    assert(pow16(8) == 4294967296);
    lemma_hex_upper_len(n, 8);
    assert(d.subrange(2, d.len() as int) =~= hex_upper(n));
    assert forall|i: int| 2 <= i < d.len() implies is_upper_hex_digit(#[trigger] d[i]) by {
        assert(d[i] == hex_upper(n)[i - 2]);
    }
}

/// With a value beside it, a non-negative status hands the value back
/// untouched, from classification and from lifting.
pub proof fn law_pair_success_keeps_value<T>(value: T, status: i32, description: Seq<char>)
    requires
        status >= 0,
    ensures
        classified(value, status) == Ok::<T, Seq<char>>(value),
        lifted(value, status, description) == Ok::<T, (DeviceError, Seq<char>)>(value),
{
}

/// With a value beside it, a negative status gives a failure that does not
/// depend on the value.
pub proof fn law_pair_failure_ignores_value<T>(
    first: T,
    second: T,
    status: i32,
    description: Seq<char>,
)
    requires
        status < 0,
    ensures
        classified(first, status) is Err,
        classified(first, status) == classified(second, status),
        lifted(first, status, description) is Err,
        lifted(first, status, description) == lifted(second, status, description),
{
}

/// The error kind of every code: allocation failure for `E_OUTOFMEMORY`,
/// device loss for the removed and reset codes, unknown for all others.
pub proof fn law_device_error_table(status: i32)
    ensures
        (device_error_of(status) == DeviceError::OutOfMemory) <==> status == E_OUTOFMEMORY,
        (device_error_of(status) == DeviceError::Lost) <==> (status == DXGI_ERROR_DEVICE_REMOVED
            || status == DXGI_ERROR_DEVICE_RESET),
        (device_error_of(status) == DeviceError::Unknown) <==> (status != E_OUTOFMEMORY && status
            != DXGI_ERROR_DEVICE_REMOVED && status != DXGI_ERROR_DEVICE_RESET),
{
}

/// Lifting one status twice, under any two descriptions, fails both times or
/// neither; when it fails, both give the same error kind and each gives
/// exactly one log line of its own.
pub proof fn law_lifting_repeats(status: i32, first: Seq<char>, second: Seq<char>)
    ensures
        lifted((), status, first) is Err <==> lifted((), status, second) is Err,
        lifted((), status, first) is Err ==> lifted((), status, first)->Err_0.0 == lifted(
            (),
            status,
            second,
        )->Err_0.0,
        lifted((), status, first) is Err ==> lifted((), status, first)->Err_0.1 == log_line(
            first,
            status,
        ),
        lifted((), status, second) is Err ==> lifted((), status, second)->Err_0.1 == log_line(
            second,
            status,
        ),
{
}

} // verus!
