use cart_build::register::Register;
use cart_build::resolver::{arch_of, platform_of, Arch, Platform};
use cart_build::text::{str_eq, str_has_prefix};

#[test]
fn register_keeps_its_address() {
    let draw_colors: Register<u16> = Register::new(0x000c);
    assert_eq!(draw_colors.address(), 0x000c);
    let gamepad: Register<u8> = Register::new(0x0016);
    assert_eq!(gamepad.address(), 0x0016);
}

#[test]
fn supported_hosts_are_recognized() {
    assert!(matches!(platform_of("linux"), Some(Platform::Linux)));
    assert!(matches!(platform_of("windows"), Some(Platform::Windows)));
    assert!(matches!(platform_of("macos"), Some(Platform::Macos)));
    assert!(platform_of("freebsd").is_none());
    assert!(matches!(arch_of("x86_64"), Some(Arch::X86_64)));
    assert!(matches!(arch_of("aarch64"), Some(Arch::Arm64)));
    assert!(arch_of("riscv64").is_none());
}

#[test]
fn text_helpers_compare_characters() {
    assert!(str_has_prefix("--release", "--r"));
    assert!(!str_has_prefix("-r", "--release"));
    assert!(str_eq("wasm-opt", "wasm-opt"));
    assert!(!str_eq("wasm-opt", "wasm-opt2"));
}
