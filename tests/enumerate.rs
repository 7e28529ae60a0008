use ddc::enumerate::is_ignored_adapter;

#[test]
fn smbus_and_platform_buses_are_ignored() {
    assert!(is_ignored_adapter(b"SMBus I801 adapter at f040"));
    assert!(is_ignored_adapter(b"soc:i2cdsi"));
    assert!(is_ignored_adapter(b"smu-i2c"));
    assert!(is_ignored_adapter(b"mac-io"));
    assert!(is_ignored_adapter(b"u4 0"));
}

#[test]
fn display_buses_are_kept() {
    assert!(!is_ignored_adapter(b"i915 gmbus dpc"));
    assert!(!is_ignored_adapter(b"AMDGPU DM i2c hw bus 0"));
    assert!(!is_ignored_adapter(b""));
    assert!(!is_ignored_adapter(b"SMB"));
}
