use std::cmp::Ordering;

use pixi::platform::Platform;
use pixi::system_requirements::{LibCRequirement, SystemRequirements};
use pixi::version::Version;
use pixi::virtual_packages::{
    check_against_local, check_platform_supported, check_virtual_package, check_virtual_packages,
    get_minimal_virtual_packages, verify_current_platform_has_required_virtual_packages, DefaultVersions,
    GenericVirtualPackage, VerifyCurrentPlatformError, VirtualPackage,
};
use pixi::workspace::{EnvironmentDecl, Feature, SolveGroupDecl, Workspace};

fn version(text: &str) -> Version {
    Version::parse(text.to_string()).unwrap()
}

fn defaults() -> DefaultVersions {
    DefaultVersions {
        linux: version("4.18"),
        glibc: version("2.28"),
        macos_x86_64: version("13.0"),
        macos_arm64: version("13.0"),
        windows: version("0"),
    }
}

fn generic(name: &str, v: &str, build: &str) -> GenericVirtualPackage {
    GenericVirtualPackage { name: name.to_string(), version: version(v), build_string: build.to_string() }
}

fn flat(packages: &[GenericVirtualPackage]) -> Vec<(String, String, String)> {
    packages
        .iter()
        .map(|p| (p.name.clone(), p.version.as_str().to_string(), p.build_string.clone()))
        .collect()
}

fn triple(name: &str, v: &str, build: &str) -> (String, String, String) {
    (name.to_string(), v.to_string(), build.to_string())
}

fn synthesize(platform: Platform, requirements: &SystemRequirements) -> Vec<(String, String, String)> {
    let packages: Vec<GenericVirtualPackage> = get_minimal_virtual_packages(platform, requirements, &defaults())
        .iter()
        .map(|p| p.to_generic())
        .collect();
    flat(&packages)
}

#[test]
fn test_get_minimal_virtual_packages() {
    let system_requirements = SystemRequirements::none();
    let expected: Vec<(Platform, Vec<(String, String, String)>)> = vec![
        (Platform::NoArch, vec![]),
        (
            Platform::Linux64,
            vec![
                triple("__unix", "0", "0"),
                triple("__linux", "4.18", "0"),
                triple("__glibc", "2.28", "0"),
                triple("__archspec", "1", "x86_64"),
            ],
        ),
        (
            Platform::LinuxAarch64,
            vec![
                triple("__unix", "0", "0"),
                triple("__linux", "4.18", "0"),
                triple("__glibc", "2.28", "0"),
                triple("__archspec", "1", "aarch64"),
            ],
        ),
        (
            Platform::LinuxPpc64le,
            vec![
                triple("__unix", "0", "0"),
                triple("__linux", "4.18", "0"),
                triple("__glibc", "2.28", "0"),
                triple("__archspec", "1", "ppc64le"),
            ],
        ),
        (
            Platform::Osx64,
            vec![triple("__unix", "0", "0"), triple("__osx", "13.0", "0"), triple("__archspec", "1", "x86_64")],
        ),
        (
            Platform::OsxArm64,
            vec![triple("__unix", "0", "0"), triple("__osx", "13.0", "0"), triple("__archspec", "1", "m1")],
        ),
        (Platform::Win64, vec![triple("__win", "0", "0"), triple("__archspec", "1", "x86_64")]),
    ];
    for (platform, packages) in expected {
        assert_eq!(synthesize(platform, &system_requirements), packages, "{}", platform.as_str());
        // Repeated calls give the same list.
        assert_eq!(synthesize(platform, &system_requirements), packages, "{}", platform.as_str());
    }
}

#[test]
fn synthesis_uses_the_requirements() {
    let mut req = SystemRequirements::none();
    req.linux = Some(version("5.10"));
    req.libc = Some(LibCRequirement { family: "musl".to_string(), version: version("1.2") });
    req.cuda = Some(version("12.0"));
    assert_eq!(
        synthesize(Platform::Linux64, &req),
        vec![
            triple("__unix", "0", "0"),
            triple("__linux", "5.10", "0"),
            triple("__musl", "1.2", "0"),
            triple("__cuda", "12.0", "0"),
            triple("__archspec", "1", "x86_64"),
        ]
    );
    let mut mac = SystemRequirements::none();
    mac.macos = Some(version("14.1"));
    assert_eq!(
        synthesize(Platform::OsxArm64, &mac),
        vec![triple("__unix", "0", "0"), triple("__osx", "14.1", "0"), triple("__archspec", "1", "m1")]
    );
}

#[test]
fn synthesis_order_is_fixed() {
    let mut req = SystemRequirements::none();
    req.cuda = Some(version("11.8"));
    let packages = get_minimal_virtual_packages(Platform::Linux64, &req, &defaults());
    assert!(matches!(packages[0], VirtualPackage::Unix));
    assert!(matches!(packages[1], VirtualPackage::Linux { .. }));
    assert!(matches!(packages[2], VirtualPackage::LibC { .. }));
    assert!(matches!(packages[3], VirtualPackage::Cuda { .. }));
    assert!(matches!(packages[4], VirtualPackage::Archspec { .. }));
}

#[test]
fn version_tolerance() {
    let host = vec![generic("__glibc", "2.28", "0")];
    assert!(check_virtual_package(&generic("__glibc", "2.28", "0"), &host).is_ok());
    assert!(check_virtual_package(&generic("__glibc", "2.17", "0"), &host).is_ok());
    let host_lower = vec![generic("__glibc", "2.27.9", "0")];
    match check_virtual_package(&generic("__glibc", "2.28", "0"), &host_lower) {
        Err(VerifyCurrentPlatformError::MismatchingVersion { required, required_version, local_version }) => {
            assert_eq!(required, "__glibc");
            assert_eq!(required_version.as_str(), "2.28");
            assert_eq!(local_version.as_str(), "2.27.9");
        },
        other => panic!("unexpected outcome {:?}", other),
    }
}

#[test]
fn check_against_local_follows_the_order() {
    let req = generic("__cuda", "12.0", "0");
    let local = generic("__cuda", "11.8", "0");
    assert!(check_against_local(&req, &local, Ordering::Less).is_ok());
    assert!(check_against_local(&req, &local, Ordering::Equal).is_ok());
    assert!(matches!(
        check_against_local(&req, &local, Ordering::Greater),
        Err(VerifyCurrentPlatformError::MismatchingVersion { .. })
    ));
}

#[test]
fn build_string_mismatch() {
    let host = vec![generic("__unix", "0", "1")];
    match check_virtual_package(&generic("__unix", "0", "0"), &host) {
        Err(VerifyCurrentPlatformError::MismatchingBuildString { required, required_build_string, local_build_string }) => {
            assert_eq!(required, "__unix");
            assert_eq!(required_build_string, "0");
            assert_eq!(local_build_string, "1");
        },
        other => panic!("unexpected outcome {:?}", other),
    }
}

#[test]
fn missing_package() {
    let host = vec![generic("__unix", "0", "0")];
    match check_virtual_package(&generic("__cuda", "12.0", "0"), &host) {
        Err(VerifyCurrentPlatformError::MissingVirtualPackage { required, required_version, required_build_string }) => {
            assert_eq!(required, "__cuda");
            assert_eq!(required_version.as_str(), "12.0");
            assert_eq!(required_build_string, "0");
        },
        other => panic!("unexpected outcome {:?}", other),
    }
}

#[test]
fn last_host_package_of_a_name_wins() {
    let host = vec![generic("__cuda", "11.0", "0"), generic("__cuda", "12.4", "0")];
    assert!(check_virtual_package(&generic("__cuda", "12.0", "0"), &host).is_ok());
}

#[test]
fn archspec_is_exempt() {
    let required = vec![generic("__unix", "0", "0"), generic("__archspec", "1", "x86_64")];
    assert!(check_virtual_packages(&required, &vec![generic("__unix", "0", "0")]).is_ok());
    let host = vec![generic("__unix", "0", "0"), generic("__archspec", "1", "m1")];
    assert!(check_virtual_packages(&required, &host).is_ok());
}

#[test]
fn first_failure_is_reported() {
    let required = vec![generic("__linux", "5.0", "0"), generic("__glibc", "2.28", "0")];
    let host = vec![generic("__linux", "4.0", "0")];
    assert!(matches!(
        check_virtual_packages(&required, &host),
        Err(VerifyCurrentPlatformError::MismatchingVersion { .. })
    ));
}

fn one_environment_workspace(platforms: Vec<Platform>, cuda: Option<&str>) -> Workspace {
    let mut req = SystemRequirements::none();
    req.cuda = cuda.map(version);
    Workspace {
        id: 7,
        solve_group_environments_dir: "envs".to_string(),
        features: vec![Feature { name: "default".to_string(), dependencies: vec![], system_requirements: req }],
        environments: vec![EnvironmentDecl {
            name: "default".to_string(),
            features: vec![0],
            solve_group: None,
            platforms,
        }],
        solve_groups: Vec::<SolveGroupDecl>::new(),
    }
}

#[test]
fn unsupported_platform_fails_before_detection() {
    let ws = one_environment_workspace(vec![Platform::Linux64], None);
    let env = ws.default_environment().unwrap();
    let detected: Result<Vec<GenericVirtualPackage>, String> = Err("detection must not matter".to_string());
    match verify_current_platform_has_required_virtual_packages(&env, Platform::Win64, &defaults(), &detected) {
        Err(VerifyCurrentPlatformError::UnsupportedPlatform { environments_platforms, platform, environment }) => {
            assert_eq!(environments_platforms, vec![Platform::Linux64]);
            assert_eq!(platform, Platform::Win64);
            assert_eq!(environment, "default");
        },
        other => panic!("unexpected outcome {:?}", other),
    }
    assert!(check_platform_supported(&env, Platform::Win64).is_err());
    assert!(check_platform_supported(&env, Platform::Linux64).is_ok());
}

#[test]
fn detection_failure_is_passed_on() {
    let ws = one_environment_workspace(vec![Platform::Linux64], None);
    let env = ws.default_environment().unwrap();
    let detected: Result<Vec<GenericVirtualPackage>, String> = Err("cannot read".to_string());
    match verify_current_platform_has_required_virtual_packages(&env, Platform::Linux64, &defaults(), &detected) {
        Err(VerifyCurrentPlatformError::DetectionVirtualPackagesError { message }) => assert_eq!(message, "cannot read"),
        other => panic!("unexpected outcome {:?}", other),
    }
}

#[test]
fn verify_passes_on_a_capable_host() {
    let ws = one_environment_workspace(vec![Platform::Linux64], Some("12.0"));
    let env = ws.default_environment().unwrap();
    let host = vec![
        generic("__unix", "0", "0"),
        generic("__linux", "6.1", "0"),
        generic("__glibc", "2.35", "0"),
        generic("__cuda", "12.2", "0"),
        generic("__archspec", "1", "zen3"),
    ];
    let detected: Result<Vec<GenericVirtualPackage>, String> = Ok(host);
    assert!(verify_current_platform_has_required_virtual_packages(&env, Platform::Linux64, &defaults(), &detected).is_ok());
}

#[test]
fn verify_reports_missing_cuda() {
    let ws = one_environment_workspace(vec![Platform::Linux64], Some("12.0"));
    let env = ws.default_environment().unwrap();
    let host = vec![generic("__unix", "0", "0"), generic("__linux", "6.1", "0"), generic("__glibc", "2.35", "0")];
    let detected: Result<Vec<GenericVirtualPackage>, String> = Ok(host);
    match verify_current_platform_has_required_virtual_packages(&env, Platform::Linux64, &defaults(), &detected) {
        Err(VerifyCurrentPlatformError::MissingVirtualPackage { required, .. }) => assert_eq!(required, "__cuda"),
        other => panic!("unexpected outcome {:?}", other),
    }
}

#[test]
fn platform_predicates_and_names() {
    assert!(Platform::Linux64.is_unix() && Platform::Linux64.is_linux());
    assert!(Platform::OsxArm64.is_osx() && !Platform::OsxArm64.is_linux());
    assert!(Platform::Win64.is_windows() && !Platform::Win64.is_unix());
    assert!(!Platform::NoArch.is_unix());
    assert_eq!(Platform::LinuxPpc64le.as_str(), "linux-ppc64le");
    assert_eq!(Platform::NoArch.archspec(), None);
    assert_eq!(Platform::OsxArm64.archspec(), Some("m1".to_string()));
}
