//! The command lines with which the kernel is built, turned into a raw image
//! and started under an emulator.

use vstd::prelude::*;
use vstd::string::StringExecFns;

verus! {

/// How the kernel is compiled.
#[derive(Debug, PartialEq, Eq, Clone, Copy, Structural)]
pub enum Profile {
    Debug,
    Release,
}

impl Profile {
    pub open spec fn spec_as_str(&self) -> Seq<char> {
        match self {
            Profile::Debug => "debug"@,
            Profile::Release => "release"@,
        }
    }

    /// The name of the directory that the compiler puts its output in.
    pub fn as_str(&self) -> (r: &'static str)
        ensures
            r@ == self.spec_as_str(),
    {
        match self {
            Profile::Debug => "debug",
            Profile::Release => "release",
        }
    }
}

/// The emulator that the kernel is started under.
#[derive(Debug, PartialEq, Eq, Clone, Copy, Structural)]
pub enum VirtualizationProvider {
    Qemu,
}

impl VirtualizationProvider {
    pub open spec fn spec_name(&self) -> Seq<char> {
        match self {
            VirtualizationProvider::Qemu => "qemu"@,
        }
    }

    /// The name of the provider, which is also the feature that the kernel is
    /// built with for it.
    pub fn name(&self) -> (r: &'static str)
        ensures
            r@ == self.spec_name(),
    {
        match self {
            VirtualizationProvider::Qemu => "qemu",
        }
    }
}

/// The architecture that the kernel is built for.
#[derive(Debug, PartialEq, Eq, Clone, Copy, Structural)]
pub enum Architecture {
    AArch64,
    X86_64,
}

impl Architecture {
    pub open spec fn spec_name(&self) -> Seq<char> {
        match self {
            Architecture::AArch64 => "aarch64"@,
            Architecture::X86_64 => "x86_64"@,
        }
    }

    pub fn name(&self) -> (r: &'static str)
        ensures
            r@ == self.spec_name(),
    {
        match self {
            Architecture::AArch64 => "aarch64",
            Architecture::X86_64 => "x86_64",
        }
    }

    pub open spec fn spec_target_triple(&self) -> Seq<char> {
        match self {
            Architecture::AArch64 => "aarch64-unknown-none-softfloat"@,
            Architecture::X86_64 => "x86_64-unknown-none"@,
        }
    }

    /// The target that the compiler is asked for.
    pub fn target_triple(&self) -> (r: &'static str)
        ensures
            r@ == self.spec_target_triple(),
    {
        match self {
            Architecture::AArch64 => "aarch64-unknown-none-softfloat",
            Architecture::X86_64 => "x86_64-unknown-none",
        }
    }
}

/// What a target is: its architecture, the place of its linker script, and
/// the machine that the emulator is to be.
#[derive(Debug)]
pub struct Config {
    pub arch: Architecture,
    pub ld_path: String,
    pub machine_type: Option<String>,
}

/// The texts of `args`.
pub open spec fn texts(args: Seq<String>) -> Seq<Seq<char>> {
    Seq::new(args.len(), |i: int| args[i]@)
}

fn push_arg(args: &mut Vec<String>, arg: &str)
    ensures
        texts(final(args)@) == texts(old(args)@).push(arg@),
{
    args.push(String::from_str(arg));
    assert(texts(args@) =~= texts(old(args)@).push(arg@));
}

/// The arguments with which the compiler builds the kernel.
pub open spec fn spec_build_args(
    arch: Architecture,
    profile: Profile,
    virtualization: Option<VirtualizationProvider>,
) -> Seq<Seq<char>> {
    let base = seq!["build"@, "--package"@, "ratto-entry"@, "--target"@, arch.spec_target_triple()];
    let release = if profile == Profile::Release {
        seq!["--release"@]
    } else {
        Seq::<Seq<char>>::empty()
    };
    let features = match virtualization {
        Some(provider) => seq!["--features"@, provider.spec_name()],
        None => Seq::<Seq<char>>::empty(),
    };
    base + release + features
}

/// The arguments with which the compiler builds the kernel. Only a 64-bit
/// Arm kernel can be built.
pub fn build_args(
    arch: Architecture,
    profile: Profile,
    virtualization: Option<VirtualizationProvider>,
) -> (r: Vec<String>)
    requires
        arch == Architecture::AArch64,
    ensures
        texts(r@) == spec_build_args(arch, profile, virtualization),
{
    let mut args: Vec<String> = Vec::new();
    assert(texts(args@) =~= Seq::<Seq<char>>::empty());
    push_arg(&mut args, "build");
    push_arg(&mut args, "--package");
    push_arg(&mut args, "ratto-entry");
    push_arg(&mut args, "--target");
    push_arg(&mut args, arch.target_triple());
    if profile == Profile::Release {
        push_arg(&mut args, "--release");
    }
    if let Some(provider) = virtualization {
        push_arg(&mut args, "--features");
        push_arg(&mut args, provider.name());
    }
    assert(texts(args@) =~= spec_build_args(arch, profile, virtualization));
    args
}

/// The flags that make the compiler abort on a panic and link with the
/// script `ld_script` out of the directory `ld_dir`.
pub open spec fn spec_rust_flags(ld_dir: Seq<char>, ld_script: Seq<char>) -> Seq<char> {
    "-C panic=abort -C link-arg=--library-path="@ + ld_dir + " -C link-arg=--script="@ + ld_script
}

pub fn rust_flags(ld_dir: &str, ld_script: &str) -> (r: String)
    ensures
        r@ == spec_rust_flags(ld_dir@, ld_script@),
{
    let mut flags = String::from_str("-C panic=abort -C link-arg=--library-path=");
    flags.append(ld_dir);
    flags.append(" -C link-arg=--script=");
    flags.append(ld_script);
    flags
}

/// The place of the compiled kernel below the workspace, one directory or
/// file name after the other.
pub open spec fn spec_kernel_elf_path(arch: Architecture, profile: Profile) -> Seq<Seq<char>> {
    seq!["target"@, arch.spec_target_triple(), profile.spec_as_str(), "ratto-entry"@]
}

pub fn kernel_elf_path(arch: Architecture, profile: Profile) -> (r: Vec<String>)
    ensures
        texts(r@) == spec_kernel_elf_path(arch, profile),
{
    let mut path: Vec<String> = Vec::new();
    assert(texts(path@) =~= Seq::<Seq<char>>::empty());
    push_arg(&mut path, "target");
    push_arg(&mut path, arch.target_triple());
    push_arg(&mut path, profile.as_str());
    push_arg(&mut path, "ratto-entry");
    assert(texts(path@) =~= spec_kernel_elf_path(arch, profile));
    path
}

/// The file name of the raw image, which lies beside the compiled kernel.
pub fn kernel_bin_name() -> (r: &'static str)
    ensures
        r@ == "ratto-kernel.bin"@,
{
    "ratto-kernel.bin"
}

/// The arguments with which the compiled kernel `elf` is turned into the raw
/// image `bin`.
pub open spec fn spec_objcopy_args(elf: Seq<char>, bin: Seq<char>) -> Seq<Seq<char>> {
    seq!["--strip-all"@, "-O"@, "binary"@, elf, bin]
}

pub fn objcopy_args(elf: &str, bin: &str) -> (r: Vec<String>)
    ensures
        texts(r@) == spec_objcopy_args(elf@, bin@),
{
    let mut args: Vec<String> = Vec::new();
    assert(texts(args@) =~= Seq::<Seq<char>>::empty());
    push_arg(&mut args, "--strip-all");
    push_arg(&mut args, "-O");
    push_arg(&mut args, "binary");
    push_arg(&mut args, elf);
    push_arg(&mut args, bin);
    assert(texts(args@) =~= spec_objcopy_args(elf@, bin@));
    args
}

/// The arguments with which the emulator starts the raw image
/// `kernel_image`: the machine, if one is named, semihosting, the arguments
/// of the caller, and the image on a serial console without graphics or sound.
pub open spec fn spec_emulator_args(
    machine_type: Option<Seq<char>>,
    extra: Seq<Seq<char>>,
    kernel_image: Seq<char>,
) -> Seq<Seq<char>> {
    let machine = match machine_type {
        Some(machine) => seq!["-M"@, machine],
        None => Seq::<Seq<char>>::empty(),
    };
    let semihosting = seq!["-semihosting"@, "-semihosting-config"@, "enable=on,target=native"@];
    let image = seq![
        "-kernel"@,
        kernel_image,
        "-nographic"@,
        "-serial"@,
        "mon:stdio"@,
        "-audio"@,
        "none"@,
    ];
    machine + semihosting + extra + image
}

impl VirtualizationProvider {
    /// The program that emulates a machine of `arch`. Only a 64-bit Arm
    /// machine can be emulated.
    pub fn program(&self, arch: Architecture) -> (r: &'static str)
        requires
            arch == Architecture::AArch64,
        ensures
            r@ == "qemu-system-aarch64"@,
    {
        "qemu-system-aarch64"
    }

    /// The arguments with which the emulator starts `kernel_image` on the
    /// machine of `config`, `args` being those of the caller. Only a 64-bit
    /// Arm machine can be emulated.
    pub fn run_args(&self, kernel_image: &str, config: &Config, args: &Vec<String>) -> (r: Vec<
        String,
    >)
        requires
            config.arch == Architecture::AArch64,
        ensures
            texts(r@) == spec_emulator_args(
                match config.machine_type {
                    Some(machine) => Some(machine@),
                    None => None,
                },
                texts(args@),
                kernel_image@,
            ),
    {
        let mut line: Vec<String> = Vec::new();
        assert(texts(line@) =~= Seq::<Seq<char>>::empty());
        if let Some(machine) = &config.machine_type {
            push_arg(&mut line, "-M");
            push_arg(&mut line, machine.as_str());
        }
        push_arg(&mut line, "-semihosting");
        push_arg(&mut line, "-semihosting-config");
        push_arg(&mut line, "enable=on,target=native");
        let ghost head = texts(line@);
        let mut i: usize = 0;
        while i < args.len()
            invariant
                i <= args.len(),
                texts(line@) == head + texts(args@.subrange(0, i as int)),
            decreases args.len() - i,
        {
            push_arg(&mut line, args[i].as_str());
            i += 1;
            assert(texts(line@) =~= head + texts(args@.subrange(0, i as int)));
        }
        assert(args@.subrange(0, i as int) =~= args@);
        push_arg(&mut line, "-kernel");
        push_arg(&mut line, kernel_image);
        push_arg(&mut line, "-nographic");
        push_arg(&mut line, "-serial");
        push_arg(&mut line, "mon:stdio");
        push_arg(&mut line, "-audio");
        push_arg(&mut line, "none");
        assert(texts(line@) =~= spec_emulator_args(
            match config.machine_type {
                Some(machine) => Some(machine@),
                None => None,
            },
            texts(args@),
            kernel_image@,
        ));
        line
    }
}

} // verus!
