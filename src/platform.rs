//! The platforms that a workspace can target, and what each one is.

use std::str::FromStr;
use vstd::prelude::*;

verus! {

/// An operating system and processor architecture, as conda names them.
#[derive(Debug, Clone, Copy, PartialEq, Eq, Structural, Hash)]
pub enum Platform {
    NoArch,
    Linux32,
    Linux64,
    LinuxAarch64,
    LinuxArmV6l,
    LinuxArmV7l,
    LinuxLoongArch64,
    LinuxPpc64le,
    LinuxPpc64,
    LinuxPpc,
    LinuxS390X,
    LinuxRiscv32,
    LinuxRiscv64,
    FreeBsd32,
    FreeBsd64,
    FreeBsdArm64,
    FreeBsdPpc64le,
    FreeBsdPpc64,
    Osx64,
    OsxArm64,
    IosArm64,
    IosSimulatorArm64,
    IosSimulator64,
    AndroidAarch64,
    AndroidArmV7a,
    Android64,
    Android32,
    Win32,
    Win64,
    WinArm64,
    EmscriptenWasm32,
    EmscriptenWasm64,
    WasiWasm32,
    ZosZ,
}

/// The name of the architecture signature that `rattler_virtual_packages`
/// assigns to the platform of the given name, if any.
pub uninterp spec fn archspec_of(platform_name: Seq<char>) -> Option<Seq<char>>;

/// Relies on `rattler_conda_types::Subdir::from_str` and
/// `rattler_virtual_packages::Archspec::from_platform`: the architecture
/// signature of a platform, by name. `noarch` has none.
#[verifier::external_body]
fn archspec_for_name(platform_name: &str) -> (r: Option<String>)
    ensures
        r matches Some(s) ==> archspec_of(platform_name@) == Some(s@),
        r is None ==> archspec_of(platform_name@) is None,
        platform_name@ == "noarch"@ ==> r is None,
{
    rattler_conda_types::Subdir::from_str(platform_name)
        .ok()
        .and_then(rattler_virtual_packages::Archspec::from_platform)
        .map(|spec| spec.as_str().to_string())
}

impl Platform {
    pub open spec fn spec_is_linux(self) -> bool {
        matches!(self, Platform::Linux32 | Platform::Linux64 | Platform::LinuxAarch64 | Platform::LinuxArmV6l | Platform::LinuxArmV7l | Platform::LinuxLoongArch64 | Platform::LinuxPpc64le | Platform::LinuxPpc64 | Platform::LinuxPpc | Platform::LinuxS390X | Platform::LinuxRiscv32 | Platform::LinuxRiscv64)
    }

    pub open spec fn spec_is_osx(self) -> bool {
        matches!(self, Platform::Osx64 | Platform::OsxArm64)
    }

    pub open spec fn spec_is_windows(self) -> bool {
        matches!(self, Platform::Win32 | Platform::Win64 | Platform::WinArm64)
    }

    pub open spec fn spec_is_ios(self) -> bool {
        matches!(self, Platform::IosArm64 | Platform::IosSimulatorArm64 | Platform::IosSimulator64)
    }

    pub open spec fn spec_is_android(self) -> bool {
        matches!(self, Platform::AndroidAarch64 | Platform::AndroidArmV7a | Platform::Android64 | Platform::Android32)
    }

    pub open spec fn spec_is_unix(self) -> bool {
        self.spec_is_linux() || self.spec_is_osx() || self.spec_is_ios() || self.spec_is_android()
            || matches!(self, Platform::EmscriptenWasm32 | Platform::EmscriptenWasm64
                | Platform::FreeBsd32 | Platform::FreeBsd64 | Platform::FreeBsdArm64
                | Platform::FreeBsdPpc64le | Platform::FreeBsdPpc64)
    }

    /// True for the Linux platforms.
    #[verifier::when_used_as_spec(spec_is_linux)]
    pub fn is_linux(self) -> (r: bool)
        ensures
            r == self.spec_is_linux(),
    {
        matches!(self, Platform::Linux32 | Platform::Linux64 | Platform::LinuxAarch64 | Platform::LinuxArmV6l | Platform::LinuxArmV7l | Platform::LinuxLoongArch64 | Platform::LinuxPpc64le | Platform::LinuxPpc64 | Platform::LinuxPpc | Platform::LinuxS390X | Platform::LinuxRiscv32 | Platform::LinuxRiscv64)
    }

    /// True for the macOS platforms.
    #[verifier::when_used_as_spec(spec_is_osx)]
    pub fn is_osx(self) -> (r: bool)
        ensures
            r == self.spec_is_osx(),
    {
        matches!(self, Platform::Osx64 | Platform::OsxArm64)
    }

    /// True for the Windows platforms.
    #[verifier::when_used_as_spec(spec_is_windows)]
    pub fn is_windows(self) -> (r: bool)
        ensures
            r == self.spec_is_windows(),
    {
        matches!(self, Platform::Win32 | Platform::Win64 | Platform::WinArm64)
    }

    /// True for the Unix-like platforms.
    #[verifier::when_used_as_spec(spec_is_unix)]
    pub fn is_unix(self) -> (r: bool)
        ensures
            r == self.spec_is_unix(),
    {
        self.is_linux() || self.is_osx()
            || matches!(self, Platform::IosArm64 | Platform::IosSimulatorArm64 | Platform::IosSimulator64
                | Platform::AndroidAarch64 | Platform::AndroidArmV7a | Platform::Android64 | Platform::Android32
                | Platform::EmscriptenWasm32 | Platform::EmscriptenWasm64
                | Platform::FreeBsd32 | Platform::FreeBsd64 | Platform::FreeBsdArm64
                | Platform::FreeBsdPpc64le | Platform::FreeBsdPpc64)
    }

    pub open spec fn spec_name(self) -> Seq<char> {
        match self {
            Platform::NoArch => "noarch"@,
            Platform::Linux32 => "linux-32"@,
            Platform::Linux64 => "linux-64"@,
            Platform::LinuxAarch64 => "linux-aarch64"@,
            Platform::LinuxArmV6l => "linux-armv6l"@,
            Platform::LinuxArmV7l => "linux-armv7l"@,
            Platform::LinuxLoongArch64 => "linux-loongarch64"@,
            Platform::LinuxPpc64le => "linux-ppc64le"@,
            Platform::LinuxPpc64 => "linux-ppc64"@,
            Platform::LinuxPpc => "linux-ppc"@,
            Platform::LinuxS390X => "linux-s390x"@,
            Platform::LinuxRiscv32 => "linux-riscv32"@,
            Platform::LinuxRiscv64 => "linux-riscv64"@,
            Platform::FreeBsd32 => "freebsd-32"@,
            Platform::FreeBsd64 => "freebsd-64"@,
            Platform::FreeBsdArm64 => "freebsd-arm64"@,
            Platform::FreeBsdPpc64le => "freebsd-ppc64le"@,
            Platform::FreeBsdPpc64 => "freebsd-ppc64"@,
            Platform::Osx64 => "osx-64"@,
            Platform::OsxArm64 => "osx-arm64"@,
            Platform::IosArm64 => "ios-arm64"@,
            Platform::IosSimulatorArm64 => "iossimulator-arm64"@,
            Platform::IosSimulator64 => "iossimulator-64"@,
            Platform::AndroidAarch64 => "android-aarch64"@,
            Platform::AndroidArmV7a => "android-armv7a"@,
            Platform::Android64 => "android-64"@,
            Platform::Android32 => "android-32"@,
            Platform::Win32 => "win-32"@,
            Platform::Win64 => "win-64"@,
            Platform::WinArm64 => "win-arm64"@,
            Platform::EmscriptenWasm32 => "emscripten-wasm32"@,
            Platform::EmscriptenWasm64 => "emscripten-wasm64"@,
            Platform::WasiWasm32 => "wasi-wasm32"@,
            Platform::ZosZ => "zos-z"@,
        }
    }

    /// The conda name of the platform (`linux-64`, `osx-arm64`, ...).
    pub fn as_str(self) -> (r: &'static str)
        ensures
            r@ == self.spec_name(),
    {
        let r = match self {
            Platform::NoArch => "noarch",
            Platform::Linux32 => "linux-32",
            Platform::Linux64 => "linux-64",
            Platform::LinuxAarch64 => "linux-aarch64",
            Platform::LinuxArmV6l => "linux-armv6l",
            Platform::LinuxArmV7l => "linux-armv7l",
            Platform::LinuxLoongArch64 => "linux-loongarch64",
            Platform::LinuxPpc64le => "linux-ppc64le",
            Platform::LinuxPpc64 => "linux-ppc64",
            Platform::LinuxPpc => "linux-ppc",
            Platform::LinuxS390X => "linux-s390x",
            Platform::LinuxRiscv32 => "linux-riscv32",
            Platform::LinuxRiscv64 => "linux-riscv64",
            Platform::FreeBsd32 => "freebsd-32",
            Platform::FreeBsd64 => "freebsd-64",
            Platform::FreeBsdArm64 => "freebsd-arm64",
            Platform::FreeBsdPpc64le => "freebsd-ppc64le",
            Platform::FreeBsdPpc64 => "freebsd-ppc64",
            Platform::Osx64 => "osx-64",
            Platform::OsxArm64 => "osx-arm64",
            Platform::IosArm64 => "ios-arm64",
            Platform::IosSimulatorArm64 => "iossimulator-arm64",
            Platform::IosSimulator64 => "iossimulator-64",
            Platform::AndroidAarch64 => "android-aarch64",
            Platform::AndroidArmV7a => "android-armv7a",
            Platform::Android64 => "android-64",
            Platform::Android32 => "android-32",
            Platform::Win32 => "win-32",
            Platform::Win64 => "win-64",
            Platform::WinArm64 => "win-arm64",
            Platform::EmscriptenWasm32 => "emscripten-wasm32",
            Platform::EmscriptenWasm64 => "emscripten-wasm64",
            Platform::WasiWasm32 => "wasi-wasm32",
            Platform::ZosZ => "zos-z",
        };
        proof {
            reveal_strlit("noarch");
        }
        r
    }

    /// The architecture signature of the platform, if there is one.
    pub fn archspec(self) -> (r: Option<String>)
        ensures
            r matches Some(s) ==> archspec_of(self.spec_name()) == Some(s@),
            r is None ==> archspec_of(self.spec_name()) is None,
    {
        archspec_for_name(self.as_str())
    }
}

} // verus!
