use ratto::qemu::{QemuExitCode, QemuParameterBlock, APPLICATION_EXIT, EXIT_DEVICE, SYS_EXIT};
use ratto::text::{push_decimal, push_hexadecimal, push_pad, wrapped_text};
use ratto::xtask::{
    build_args, kernel_bin_name, kernel_elf_path, objcopy_args, rust_flags, Architecture, Config,
    Profile, VirtualizationProvider,
};

fn decimal(n: u64) -> String {
    let mut text = String::new();
    push_decimal(&mut text, n);
    text
}

fn hexadecimal(n: u64) -> String {
    let mut text = String::new();
    push_hexadecimal(&mut text, n);
    text
}

#[test]
fn numbers_are_written_in_decimal() {
    assert_eq!(decimal(0), "0");
    assert_eq!(decimal(9), "9");
    assert_eq!(decimal(10), "10");
    assert_eq!(decimal(989855744), "989855744");
    assert_eq!(decimal(u64::MAX), "18446744073709551615");
    for n in [1u64, 19, 100, 1234567890, 1 << 40] {
        assert_eq!(decimal(n), format!("{}", n));
    }
}

#[test]
fn numbers_are_written_in_hexadecimal() {
    assert_eq!(hexadecimal(0), "0x0");
    assert_eq!(hexadecimal(15), "0xf");
    assert_eq!(hexadecimal(16), "0x10");
    assert_eq!(hexadecimal(0x3B00_0000), "0x3b000000");
    assert_eq!(hexadecimal(u64::MAX), "0xffffffffffffffff");
    for n in [1u64, 0xabcdef, 0x8_0000, 1 << 63] {
        assert_eq!(hexadecimal(n), format!("{:#x}", n));
    }
}

#[test]
fn text_is_appended_to_what_is_there() {
    let mut text = String::from("n=");
    push_decimal(&mut text, 42);
    text.push(' ');
    push_hexadecimal(&mut text, 42);
    push_pad(&mut text, 0);
    assert_eq!(text, "n=42 0x2a");
    push_pad(&mut text, 2);
    assert_eq!(text, "n=42 0x2a        ");
}

#[test]
fn a_wrapped_value_stands_one_level_deeper() {
    assert_eq!(wrapped_text("Some", "x", 0), "Some(\n    x,\n)");
    assert_eq!(wrapped_text("Init1", "None", 1), "Init1(\n        None,\n    )");
}

#[test]
fn the_exit_codes_have_their_values() {
    assert_eq!(QemuExitCode::Success.exit_device_value(), 0x10);
    assert_eq!(QemuExitCode::Failed.exit_device_value(), 0x11);
    assert_eq!(EXIT_DEVICE, 0xf4);
    assert_eq!(SYS_EXIT, 0x18);
    assert_eq!(APPLICATION_EXIT, 0x20026);
    assert_eq!(
        QemuExitCode::Success.parameter_block(),
        QemuParameterBlock { arg0: 0x20026, arg1: 0 }
    );
    assert_eq!(
        QemuExitCode::Failed.parameter_block(),
        QemuParameterBlock { arg0: 0x20026, arg1: 1 }
    );
    assert_ne!(QemuExitCode::Success, QemuExitCode::Failed);
}

#[test]
fn profiles_architectures_and_providers_have_their_names() {
    assert_eq!(Profile::Debug.as_str(), "debug");
    assert_eq!(Profile::Release.as_str(), "release");
    assert_eq!(Architecture::AArch64.target_triple(), "aarch64-unknown-none-softfloat");
    assert_eq!(Architecture::X86_64.target_triple(), "x86_64-unknown-none");
    assert_eq!(Architecture::AArch64.name(), "aarch64");
    assert_eq!(Architecture::X86_64.name(), "x86_64");
    assert_eq!(VirtualizationProvider::Qemu.name(), "qemu");
    assert_eq!(VirtualizationProvider::Qemu.program(Architecture::AArch64), "qemu-system-aarch64");
}

#[test]
fn the_kernel_is_built_for_its_target() {
    assert_eq!(
        build_args(Architecture::AArch64, Profile::Debug, None),
        vec!["build", "--package", "ratto-entry", "--target", "aarch64-unknown-none-softfloat"]
    );
    assert_eq!(
        build_args(Architecture::AArch64, Profile::Release, None),
        vec![
            "build",
            "--package",
            "ratto-entry",
            "--target",
            "aarch64-unknown-none-softfloat",
            "--release"
        ]
    );
    assert_eq!(
        build_args(Architecture::AArch64, Profile::Release, Some(VirtualizationProvider::Qemu)),
        vec![
            "build",
            "--package",
            "ratto-entry",
            "--target",
            "aarch64-unknown-none-softfloat",
            "--release",
            "--features",
            "qemu"
        ]
    );
    assert_eq!(
        build_args(Architecture::AArch64, Profile::Debug, Some(VirtualizationProvider::Qemu)),
        vec![
            "build",
            "--package",
            "ratto-entry",
            "--target",
            "aarch64-unknown-none-softfloat",
            "--features",
            "qemu"
        ]
    );
}

#[test]
fn the_linker_is_pointed_at_its_script() {
    assert_eq!(
        rust_flags("/work/ld", "kernel.ld"),
        "-C panic=abort -C link-arg=--library-path=/work/ld -C link-arg=--script=kernel.ld"
    );
    assert_eq!(
        rust_flags("", ""),
        "-C panic=abort -C link-arg=--library-path= -C link-arg=--script="
    );
}

#[test]
fn the_image_lies_beside_the_compiled_kernel() {
    assert_eq!(
        kernel_elf_path(Architecture::AArch64, Profile::Debug),
        vec!["target", "aarch64-unknown-none-softfloat", "debug", "ratto-entry"]
    );
    assert_eq!(
        kernel_elf_path(Architecture::X86_64, Profile::Release),
        vec!["target", "x86_64-unknown-none", "release", "ratto-entry"]
    );
    assert_eq!(kernel_bin_name(), "ratto-kernel.bin");
    assert_eq!(
        objcopy_args("a/ratto-entry", "a/ratto-kernel.bin"),
        vec!["--strip-all", "-O", "binary", "a/ratto-entry", "a/ratto-kernel.bin"]
    );
}

#[test]
fn the_emulator_is_started_on_the_image() {
    let config = Config {
        arch: Architecture::AArch64,
        ld_path: String::from("ld/kernel.ld"),
        machine_type: Some(String::from("raspi3b")),
    };
    let extra = vec![String::from("-s"), String::from("-S")];
    assert_eq!(
        VirtualizationProvider::Qemu.run_args("k.bin", &config, &extra),
        vec![
            "-M",
            "raspi3b",
            "-semihosting",
            "-semihosting-config",
            "enable=on,target=native",
            "-s",
            "-S",
            "-kernel",
            "k.bin",
            "-nographic",
            "-serial",
            "mon:stdio",
            "-audio",
            "none"
        ]
    );
    let plain = Config { arch: Architecture::AArch64, ld_path: String::new(), machine_type: None };
    assert_eq!(
        VirtualizationProvider::Qemu.run_args("k.bin", &plain, &vec![]),
        vec![
            "-semihosting",
            "-semihosting-config",
            "enable=on,target=native",
            "-kernel",
            "k.bin",
            "-nographic",
            "-serial",
            "mon:stdio",
            "-audio",
            "none"
        ]
    );
}
