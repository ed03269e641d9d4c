use pointer_clear::context::{require_adapter, SetupError};

#[test]
fn missing_adapter_is_a_setup_error() {
    assert!(matches!(require_adapter(None), Err(SetupError::NoAdapterFound)));
}

#[test]
fn refused_device_is_a_setup_error() {
    let refused = pointer_clear::context::require_device(Err(wgpu::RequestDeviceError));
    assert!(matches!(refused, Err(SetupError::DeviceRequestFailed)));
}
