//! Translation of 32-bit COM/DXGI status codes (`HRESULT`) into diagnostics
//! and coarse device-error kinds, plus the web GPU tone-mapping mode names.

pub mod codes;
pub mod hex;
pub mod laws;
pub mod result;
pub mod tone_mapping;

pub use codes::{
    DeviceError, DXGI_ERROR_DEVICE_REMOVED, DXGI_ERROR_DEVICE_RESET, E_INVALIDARG, E_NOTIMPL,
    E_OUTOFMEMORY, E_UNEXPECTED,
};
pub use result::{DeviceFailure, HResult};
pub use tone_mapping::GpuCanvasToneMappingMode;
