use hresult::codes::{device_error, to_unsigned};
use hresult::hex::append_hex;
use hresult::{
    DeviceError, DeviceFailure, GpuCanvasToneMappingMode, HResult, DXGI_ERROR_DEVICE_REMOVED,
    DXGI_ERROR_DEVICE_RESET, E_INVALIDARG, E_NOTIMPL, E_OUTOFMEMORY, E_UNEXPECTED,
};

fn expect_failure(r: Result<(), DeviceFailure>) -> (DeviceError, String) {
    match r {
        Ok(()) => panic!("expected a failure"),
        Err(f) => (f.kind, f.log_line),
    }
}

#[test]
fn constants_match_platform_values() {
    assert_eq!(E_UNEXPECTED as u32, 0x8000FFFF);
    assert_eq!(E_NOTIMPL as u32, 0x80004001);
    assert_eq!(E_OUTOFMEMORY as u32, 0x8007000E);
    assert_eq!(E_INVALIDARG as u32, 0x80070057);
    assert_eq!(DXGI_ERROR_DEVICE_REMOVED as u32, 0x887A0005);
    assert_eq!(DXGI_ERROR_DEVICE_RESET as u32, 0x887A0007);
}

#[test]
fn non_negative_codes_succeed() {
    for s in [0i32, 1, 42, 0x7FFFFFFF] {
        assert_eq!(s.into_result(), Ok(()));
        assert!(s.into_device_result("Op").is_ok());
    }
}

#[test]
fn negative_codes_fail_with_one_log_line() {
    for s in [-1i32, i32::MIN, E_NOTIMPL, E_UNEXPECTED] {
        assert!(s.into_result().is_err());
        let (_, line) = expect_failure(s.into_device_result("Op"));
        assert!(line.starts_with("Op failed: "));
    }
}

#[test]
fn known_codes_have_fixed_names() {
    assert_eq!(E_UNEXPECTED.into_result(), Err("unexpected".to_string()));
    assert_eq!(E_NOTIMPL.into_result(), Err("not implemented".to_string()));
    assert_eq!(E_OUTOFMEMORY.into_result(), Err("out of memory".to_string()));
    assert_eq!(E_INVALIDARG.into_result(), Err("invalid argument".to_string()));
    assert_eq!(DXGI_ERROR_DEVICE_RESET.into_result(), Err("device reset".to_string()));
    assert_eq!(DXGI_ERROR_DEVICE_REMOVED.into_result(), Err("device removed".to_string()));
}

#[test]
fn unknown_code_renders_as_uppercase_hex() {
    let s = 0x80004005u32 as i32;
    let d = s.into_result().unwrap_err();
    assert_eq!(d, "0x80004005");
    assert!(d.len() >= 3 && d.len() <= 10);
    assert!(d[2..].chars().all(|c| c.is_ascii_digit() || ('A'..='F').contains(&c)));
    assert_eq!(u32::from_str_radix(&d[2..], 16).unwrap(), s as u32);
    assert_eq!((0x8ABCDEF0u32 as i32).into_result(), Err("0x8ABCDEF0".to_string()));
}

#[test]
fn pair_success_keeps_value() {
    assert_eq!((vec![1u8, 2, 3], 7i32).into_result(), Ok(vec![1u8, 2, 3]));
    assert_eq!(("text", 0i32).into_device_result("Op").ok(), Some("text"));
}

#[test]
fn pair_failure_drops_value() {
    let a = (1u64, E_OUTOFMEMORY).into_result().unwrap_err();
    let b = (2u64, E_OUTOFMEMORY).into_result().unwrap_err();
    assert_eq!(a, b);
    match (String::from("v"), -5i32).into_device_result("Op") {
        Ok(_) => panic!("expected a failure"),
        Err(f) => {
            assert_eq!(f.kind, DeviceError::Unknown);
            assert_eq!(f.log_line, "Op failed: 0xFFFFFFFB");
        }
    }
}

#[test]
fn device_error_table() {
    assert_eq!(device_error(E_OUTOFMEMORY), DeviceError::OutOfMemory);
    assert_eq!(device_error(DXGI_ERROR_DEVICE_REMOVED), DeviceError::Lost);
    assert_eq!(device_error(DXGI_ERROR_DEVICE_RESET), DeviceError::Lost);
    assert_eq!(device_error(E_UNEXPECTED), DeviceError::Unknown);
    assert_eq!(device_error(E_NOTIMPL), DeviceError::Unknown);
    assert_eq!(device_error(E_INVALIDARG), DeviceError::Unknown);
    assert_eq!(device_error(-1), DeviceError::Unknown);
    assert_eq!(device_error(0), DeviceError::Unknown);
}

#[test]
fn lifting_twice_gives_same_kind_and_a_line_each() {
    let first = expect_failure(DXGI_ERROR_DEVICE_RESET.into_device_result("Present"));
    let second = expect_failure(DXGI_ERROR_DEVICE_RESET.into_device_result("Present"));
    assert_eq!(first.0, DeviceError::Lost);
    assert_eq!(first.0, second.0);
    assert_eq!(first.1, "Present failed: device reset");
    assert_eq!(second.1, "Present failed: device reset");
}

#[test]
fn zero_is_success() {
    assert_eq!(0i32.into_result(), Ok(()));
}

#[test]
fn largest_positive_is_success() {
    assert_eq!(0x7FFFFFFFi32.into_result(), Ok(()));
}

#[test]
fn most_negative_is_unknown_failure() {
    let s = 0x80000000u32 as i32;
    assert_eq!(s.into_result(), Err("0x80000000".to_string()));
    let (kind, line) = expect_failure(s.into_device_result("Op"));
    assert_eq!(kind, DeviceError::Unknown);
    assert_eq!(line, "Op failed: 0x80000000");
}

#[test]
fn minus_one_is_unknown_failure() {
    assert_eq!((-1i32).into_result(), Err("0xFFFFFFFF".to_string()));
    let (kind, _) = expect_failure((-1i32).into_device_result("Op"));
    assert_eq!(kind, DeviceError::Unknown);
}

#[test]
fn create_device_succeeds_without_log() {
    assert!(0i32.into_device_result("CreateDevice").is_ok());
}

#[test]
fn allocate_buffer_out_of_memory() {
    let (kind, line) = expect_failure(E_OUTOFMEMORY.into_device_result("AllocateBuffer"));
    assert_eq!(kind, DeviceError::OutOfMemory);
    assert_eq!(line, "AllocateBuffer failed: out of memory");
}

#[test]
fn present_device_removed() {
    let (kind, line) = expect_failure(DXGI_ERROR_DEVICE_REMOVED.into_device_result("Present"));
    assert_eq!(kind, DeviceError::Lost);
    assert_eq!(line, "Present failed: device removed");
}

#[test]
fn set_state_invalid_argument() {
    let (kind, line) = expect_failure(E_INVALIDARG.into_device_result("SetState"));
    assert_eq!(kind, DeviceError::Unknown);
    assert_eq!(line, "SetState failed: invalid argument");
}

#[test]
fn arbitrary_unknown_code() {
    let (kind, line) = expect_failure((0xDEADBEEFu32 as i32).into_device_result("X"));
    assert_eq!(kind, DeviceError::Unknown);
    assert_eq!(line, "X failed: 0xDEADBEEF");
}

#[test]
fn pair_with_value_succeeds() {
    match (42i32, 0i32).into_device_result("Q") {
        Ok(v) => assert_eq!(v, 42),
        Err(_) => panic!("expected success"),
    }
}

#[test]
fn empty_description_is_allowed() {
    let (_, line) = expect_failure(E_NOTIMPL.into_device_result(""));
    assert_eq!(line, " failed: not implemented");
}

#[test]
fn unsigned_reinterpretation() {
    assert_eq!(to_unsigned(-1), 0xFFFFFFFF);
    assert_eq!(to_unsigned(i32::MIN), 0x80000000);
    assert_eq!(to_unsigned(5), 5);
}

#[test]
fn hex_rendering() {
    let mut s = String::from("0x");
    append_hex(&mut s, 0);
    assert_eq!(s, "0x0");
    let mut t = String::new();
    append_hex(&mut t, 0xABCDEF12);
    assert_eq!(t, "ABCDEF12");
    let mut u = String::new();
    append_hex(&mut u, 255);
    assert_eq!(u, "FF");
}

#[test]
fn tone_mapping_names() {
    assert_eq!(GpuCanvasToneMappingMode::Standard.to_str(), "standard");
    assert_eq!(GpuCanvasToneMappingMode::Extended.to_str(), "extended");
    assert_eq!(
        GpuCanvasToneMappingMode::from_str("standard"),
        Some(GpuCanvasToneMappingMode::Standard)
    );
    assert_eq!(
        GpuCanvasToneMappingMode::from_str("extended"),
        Some(GpuCanvasToneMappingMode::Extended)
    );
    assert_eq!(GpuCanvasToneMappingMode::from_str("Standard"), None);
    assert_eq!(GpuCanvasToneMappingMode::from_str(""), None);
    assert_eq!(GpuCanvasToneMappingMode::from_str("extend"), None);
}
