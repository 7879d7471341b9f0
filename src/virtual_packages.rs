//! The minimal virtual packages that an environment needs on a platform, and
//! the check of those against what the host provides.

use crate::platform::{archspec_of, Platform};
use crate::system_requirements::{libc_view, MergeError, SystemRequirements, SystemRequirementsModel};
use crate::version::{version_order, Version};
use crate::workspace::Environment;
use std::cmp::Ordering;
use vstd::prelude::*;

verus! {

/// The versions assumed where the system requirements name none.
#[derive(Debug)]
pub struct DefaultVersions {
    pub linux: Version,
    pub glibc: Version,
    /// macOS on Intel processors.
    pub macos_x86_64: Version,
    /// macOS on Apple processors.
    pub macos_arm64: Version,
    pub windows: Version,
}

impl DefaultVersions {
    pub open spec fn spec_mac_os(&self, platform: Platform) -> Seq<char> {
        if platform == Platform::OsxArm64 {
            self.macos_arm64@
        } else {
            self.macos_x86_64@
        }
    }

    /// The default macOS version for a macOS platform.
    pub fn mac_os(&self, platform: Platform) -> (r: &Version)
        ensures
            r@ == self.spec_mac_os(platform),
    {
        match platform {
            Platform::OsxArm64 => &self.macos_arm64,
            _ => &self.macos_x86_64,
        }
    }
}

/// A capability that the host must have.
#[derive(Debug)]
pub enum VirtualPackage {
    Unix,
    Linux { version: Version },
    LibC { family: String, version: Version },
    Windows { version: Version },
    Osx { version: Version },
    Cuda { version: Version },
    Archspec { spec: String },
}

/// The mathematical value of a virtual package.
pub enum VirtualPackageModel {
    Unix,
    Linux { version: Seq<char> },
    LibC { family: Seq<char>, version: Seq<char> },
    Windows { version: Seq<char> },
    Osx { version: Seq<char> },
    Cuda { version: Seq<char> },
    Archspec { spec: Seq<char> },
}

impl View for VirtualPackage {
    type V = VirtualPackageModel;

    open spec fn view(&self) -> VirtualPackageModel {
        match self {
            VirtualPackage::Unix => VirtualPackageModel::Unix,
            VirtualPackage::Linux { version } => VirtualPackageModel::Linux { version: version@ },
            VirtualPackage::LibC { family, version } => VirtualPackageModel::LibC {
                family: family@,
                version: version@,
            },
            VirtualPackage::Windows { version } => VirtualPackageModel::Windows { version: version@ },
            VirtualPackage::Osx { version } => VirtualPackageModel::Osx { version: version@ },
            VirtualPackage::Cuda { version } => VirtualPackageModel::Cuda { version: version@ },
            VirtualPackage::Archspec { spec } => VirtualPackageModel::Archspec { spec: spec@ },
        }
    }
}

/// The minimal virtual packages for a platform, before the architecture
/// signature: unix, then Linux and its C library, then Windows, then macOS,
/// then CUDA, each where it applies.
pub open spec fn minimal_packages_base(
    platform: Platform,
    req: SystemRequirementsModel,
    defaults: DefaultVersions,
) -> Seq<VirtualPackageModel> {
    let unix = if platform.spec_is_unix() {
        seq![VirtualPackageModel::Unix]
    } else {
        Seq::empty()
    };
    let linux = if platform.spec_is_linux() {
        let (family, libc_version) = match req.libc {
            Some(l) => l,
            None => ("glibc"@, defaults.glibc@),
        };
        seq![
            VirtualPackageModel::Linux { version: match req.linux { Some(v) => v, None => defaults.linux@ } },
            VirtualPackageModel::LibC { family, version: libc_version },
        ]
    } else {
        Seq::empty()
    };
    let windows = if platform.spec_is_windows() {
        seq![VirtualPackageModel::Windows { version: defaults.windows@ }]
    } else {
        Seq::empty()
    };
    let osx = if platform.spec_is_osx() {
        seq![VirtualPackageModel::Osx {
            version: match req.macos { Some(v) => v, None => defaults.spec_mac_os(platform) },
        }]
    } else {
        Seq::empty()
    };
    let cuda = match req.cuda {
        Some(v) => seq![VirtualPackageModel::Cuda { version: v }],
        None => Seq::empty(),
    };
    unix + linux + windows + osx + cuda
}

/// The minimal virtual packages for a platform: those above, followed by the
/// platform's architecture signature where it has one.
pub open spec fn minimal_packages(
    platform: Platform,
    req: SystemRequirementsModel,
    defaults: DefaultVersions,
) -> Seq<VirtualPackageModel> {
    match archspec_of(platform.spec_name()) {
        Some(spec) => minimal_packages_base(platform, req, defaults).push(
            VirtualPackageModel::Archspec { spec },
        ),
        None => minimal_packages_base(platform, req, defaults),
    }
}

pub open spec fn packages_view(s: Seq<VirtualPackage>) -> Seq<VirtualPackageModel> {
    s.map_values(|p: VirtualPackage| p@)
}

/// Returns the virtual packages that an environment with the given system
/// requirements needs on a platform; defaults stand in for what the
/// requirements leave open.
pub fn get_minimal_virtual_packages(
    platform: Platform,
    system_requirements: &SystemRequirements,
    defaults: &DefaultVersions,
) -> (r: Vec<VirtualPackage>)
    ensures
        packages_view(r@) == minimal_packages(platform, system_requirements@, *defaults),
{
    let mut packages: Vec<VirtualPackage> = Vec::new();
    if platform.is_unix() {
        packages.push(VirtualPackage::Unix);
    }
    if platform.is_linux() {
        let version = match &system_requirements.linux {
            Some(v) => v.duplicate(),
            None => defaults.linux.duplicate(),
        };
        packages.push(VirtualPackage::Linux { version });
        let (family, version) = match &system_requirements.libc {
            Some(l) => (l.family.clone(), l.version.duplicate()),
            None => (String::from_str("glibc"), defaults.glibc.duplicate()),
        };
        proof {
            reveal_strlit("glibc");
        }
        packages.push(VirtualPackage::LibC { family, version });
    }
    if platform.is_windows() {
        packages.push(VirtualPackage::Windows { version: defaults.windows.duplicate() });
    }
    if platform.is_osx() {
        let version = match &system_requirements.macos {
            Some(v) => v.duplicate(),
            None => defaults.mac_os(platform).duplicate(),
        };
        packages.push(VirtualPackage::Osx { version });
    }
    if let Some(v) = &system_requirements.cuda {
        packages.push(VirtualPackage::Cuda { version: v.duplicate() });
    }
    let ghost base = packages_view(packages@);
    proof {
        assert(base =~= minimal_packages_base(platform, system_requirements@, *defaults));
    }
    if let Some(spec) = platform.archspec() {
        packages.push(VirtualPackage::Archspec { spec });
        proof {
            assert(packages_view(packages@) =~= base.push(packages@.last()@));
        }
    }
    packages
}


/// A virtual package as a name, a version and a build string, the form in
/// which the host's packages are compared with the required ones.
#[derive(Debug)]
pub struct GenericVirtualPackage {
    pub name: String,
    pub version: Version,
    pub build_string: String,
}

/// The mathematical value of a generic virtual package.
pub struct GenericModel {
    pub name: Seq<char>,
    pub version: Seq<char>,
    pub build_string: Seq<char>,
}

impl View for GenericVirtualPackage {
    type V = GenericModel;

    open spec fn view(&self) -> GenericModel {
        GenericModel { name: self.name@, version: self.version@, build_string: self.build_string@ }
    }
}

/// The name under which the architecture signature is published.
pub open spec fn archspec_name() -> Seq<char> {
    "__archspec"@
}

/// The generic form of a virtual package: `__unix`, `__linux`, `__<family>`,
/// `__win`, `__osx`, `__cuda` or `__archspec`. Build strings are `0` but for
/// the architecture signature, whose build string is the signature and whose
/// version is `1`.
pub open spec fn generic_of(p: VirtualPackageModel) -> GenericModel {
    match p {
        VirtualPackageModel::Unix => GenericModel { name: "__unix"@, version: "0"@, build_string: "0"@ },
        VirtualPackageModel::Linux { version } => GenericModel { name: "__linux"@, version, build_string: "0"@ },
        VirtualPackageModel::LibC { family, version } => GenericModel {
            name: "__"@ + family,
            version,
            build_string: "0"@,
        },
        VirtualPackageModel::Windows { version } => GenericModel { name: "__win"@, version, build_string: "0"@ },
        VirtualPackageModel::Osx { version } => GenericModel { name: "__osx"@, version, build_string: "0"@ },
        VirtualPackageModel::Cuda { version } => GenericModel { name: "__cuda"@, version, build_string: "0"@ },
        VirtualPackageModel::Archspec { spec } => GenericModel {
            name: archspec_name(),
            version: "1"@,
            build_string: spec,
        },
    }
}

impl VirtualPackage {
    /// The generic form of the package.
    pub fn to_generic(&self) -> (r: GenericVirtualPackage)
        ensures
            r@ == generic_of(self@),
    {
        proof {
            reveal_strlit("0");
            reveal_strlit("1");
        }
        let zero = String::from_str("0");
        match self {
            VirtualPackage::Unix => GenericVirtualPackage {
                name: String::from_str("__unix"),
                version: Version::decimal("0"),
                build_string: zero,
            },
            VirtualPackage::Linux { version } => GenericVirtualPackage {
                name: String::from_str("__linux"),
                version: version.duplicate(),
                build_string: zero,
            },
            VirtualPackage::LibC { family, version } => GenericVirtualPackage {
                name: String::from_str("__").concat(family.as_str()),
                version: version.duplicate(),
                build_string: zero,
            },
            VirtualPackage::Windows { version } => GenericVirtualPackage {
                name: String::from_str("__win"),
                version: version.duplicate(),
                build_string: zero,
            },
            VirtualPackage::Osx { version } => GenericVirtualPackage {
                name: String::from_str("__osx"),
                version: version.duplicate(),
                build_string: zero,
            },
            VirtualPackage::Cuda { version } => GenericVirtualPackage {
                name: String::from_str("__cuda"),
                version: version.duplicate(),
                build_string: zero,
            },
            VirtualPackage::Archspec { spec } => GenericVirtualPackage {
                name: String::from_str("__archspec"),
                version: Version::decimal("1"),
                build_string: spec.clone(),
            },
        }
    }
}

/// Why the host cannot run an environment.
#[derive(Debug)]
pub enum VerifyCurrentPlatformError {
    /// The host's platform is not among those that the environment supports.
    UnsupportedPlatform { environments_platforms: Vec<Platform>, platform: Platform, environment: String },
    /// The host's virtual packages could not be detected.
    DetectionVirtualPackagesError { message: String },
    /// The environment's system requirements cannot be combined.
    ConflictingSystemRequirements { error: MergeError },
    /// The host has the package, on another build.
    MismatchingBuildString { required: String, required_build_string: String, local_build_string: String },
    /// The host has the package, on a lower version.
    MismatchingVersion { required: String, required_version: Version, local_version: Version },
    /// The host lacks the package.
    MissingVirtualPackage { required: String, required_version: Version, required_build_string: String },
}

/// The mathematical value of a verification error.
pub enum VerifyErrorModel {
    UnsupportedPlatform { environments_platforms: Seq<Platform>, platform: Platform, environment: Seq<char> },
    DetectionVirtualPackagesError { message: Seq<char> },
    ConflictingSystemRequirements,
    MismatchingBuildString { required: Seq<char>, required_build_string: Seq<char>, local_build_string: Seq<char> },
    MismatchingVersion { required: Seq<char>, required_version: Seq<char>, local_version: Seq<char> },
    MissingVirtualPackage { required: Seq<char>, required_version: Seq<char>, required_build_string: Seq<char> },
}

impl View for VerifyCurrentPlatformError {
    type V = VerifyErrorModel;

    open spec fn view(&self) -> VerifyErrorModel {
        match self {
            VerifyCurrentPlatformError::UnsupportedPlatform { environments_platforms, platform, environment } =>
                VerifyErrorModel::UnsupportedPlatform {
                    environments_platforms: environments_platforms@,
                    platform: *platform,
                    environment: environment@,
                },
            VerifyCurrentPlatformError::DetectionVirtualPackagesError { message } =>
                VerifyErrorModel::DetectionVirtualPackagesError { message: message@ },
            VerifyCurrentPlatformError::ConflictingSystemRequirements { .. } =>
                VerifyErrorModel::ConflictingSystemRequirements,
            VerifyCurrentPlatformError::MismatchingBuildString { required, required_build_string, local_build_string } =>
                VerifyErrorModel::MismatchingBuildString {
                    required: required@,
                    required_build_string: required_build_string@,
                    local_build_string: local_build_string@,
                },
            VerifyCurrentPlatformError::MismatchingVersion { required, required_version, local_version } =>
                VerifyErrorModel::MismatchingVersion {
                    required: required@,
                    required_version: required_version@,
                    local_version: local_version@,
                },
            VerifyCurrentPlatformError::MissingVirtualPackage { required, required_version, required_build_string } =>
                VerifyErrorModel::MissingVirtualPackage {
                    required: required@,
                    required_version: required_version@,
                    required_build_string: required_build_string@,
                },
        }
    }
}

pub open spec fn outcome_view(r: Result<(), VerifyCurrentPlatformError>) -> Option<VerifyErrorModel> {
    match r {
        Ok(_) => None,
        Err(e) => Some(e@),
    }
}

/// The last host package of the given name, if any: where names repeat, the
/// last one wins.
pub open spec fn lookup(host: Seq<GenericModel>, name: Seq<char>) -> Option<GenericModel>
    decreases host.len(),
{
    if host.len() == 0 {
        None
    } else if host.last().name == name {
        Some(host.last())
    } else {
        lookup(host.drop_last(), name)
    }
}

/// The verdict on one required package against the host package of its
/// name, given how the required version compares with the host's.
pub open spec fn local_verdict(req: GenericModel, local: GenericModel, order: Ordering) -> Option<VerifyErrorModel> {
    if req.build_string != local.build_string {
        Some(VerifyErrorModel::MismatchingBuildString {
            required: req.name,
            required_build_string: req.build_string,
            local_build_string: local.build_string,
        })
    } else if order == Ordering::Greater {
        Some(VerifyErrorModel::MismatchingVersion {
            required: req.name,
            required_version: req.version,
            local_version: local.version,
        })
    } else {
        None
    }
}

/// The verdict on one required package: the architecture signature is never
/// held against the host; any other package must be present, on the same
/// build and on at least the required version.
pub open spec fn package_verdict(req: GenericModel, host: Seq<GenericModel>) -> Option<VerifyErrorModel> {
    if req.name == archspec_name() {
        None
    } else {
        match lookup(host, req.name) {
            None => Some(VerifyErrorModel::MissingVirtualPackage {
                required: req.name,
                required_version: req.version,
                required_build_string: req.build_string,
            }),
            Some(local) => local_verdict(req, local, version_order(req.version, local.version)),
        }
    }
}

/// The first failing verdict over the required packages, in order.
pub open spec fn first_failure(reqs: Seq<GenericModel>, host: Seq<GenericModel>) -> Option<VerifyErrorModel>
    decreases reqs.len(),
{
    if reqs.len() == 0 {
        None
    } else {
        match first_failure(reqs.drop_last(), host) {
            Some(e) => Some(e),
            None => package_verdict(reqs.last(), host),
        }
    }
}

pub open spec fn generics_view(s: Seq<GenericVirtualPackage>) -> Seq<GenericModel> {
    s.map_values(|p: GenericVirtualPackage| p@)
}

/// Checks a required package against the host package of the same name,
/// given how the required version compares with the host's: the build
/// strings must be equal, and the required version must not be greater.
pub fn check_against_local(
    required: &GenericVirtualPackage,
    local: &GenericVirtualPackage,
    required_vs_local: Ordering,
) -> (r: Result<(), VerifyCurrentPlatformError>)
    ensures
        outcome_view(r) == local_verdict(required@, local@, required_vs_local),
{
    if required.build_string != local.build_string {
        return Err(
            VerifyCurrentPlatformError::MismatchingBuildString {
                required: required.name.clone(),
                required_build_string: required.build_string.clone(),
                local_build_string: local.build_string.clone(),
            },
        );
    }
    if matches!(required_vs_local, Ordering::Greater) {
        return Err(
            VerifyCurrentPlatformError::MismatchingVersion {
                required: required.name.clone(),
                required_version: required.version.duplicate(),
                local_version: local.version.duplicate(),
            },
        );
    }
    Ok(())
}

/// The last host package with the given name, if any.
fn find_local<'a>(host: &'a Vec<GenericVirtualPackage>, name: &String) -> (r: Option<&'a GenericVirtualPackage>)
    ensures
        match r {
            Some(p) => lookup(generics_view(host@), name@) == Some(p@),
            None => lookup(generics_view(host@), name@) is None,
        },
{
    let ghost hv = generics_view(host@);
    let mut i: usize = host.len();
    proof {
        assert(hv.take(hv.len() as int) =~= hv);
    }
    while i > 0
        invariant
            i <= host@.len(),
            hv == generics_view(host@),
            lookup(hv, name@) == lookup(hv.take(i as int), name@),
        decreases i,
    {
        proof {
            assert(hv.take(i as int).drop_last() =~= hv.take(i - 1));
        }
        if host[i - 1].name == *name {
            return Some(&host[i - 1]);
        }
        i = i - 1;
    }
    None
}

/// Checks one required package against the host's packages.
pub fn check_virtual_package(
    required: &GenericVirtualPackage,
    host: &Vec<GenericVirtualPackage>,
) -> (r: Result<(), VerifyCurrentPlatformError>)
    ensures
        outcome_view(r) == package_verdict(required@, generics_view(host@)),
{
    let archspec = String::from_str("__archspec");
    proof {
        reveal_strlit("__archspec");
    }
    if required.name == archspec {
        return Ok(());
    }
    match find_local(host, &required.name) {
        Some(local) => {
            let order = required.version.compare(&local.version);
            check_against_local(required, local, order)
        },
        None => Err(
            VerifyCurrentPlatformError::MissingVirtualPackage {
                required: required.name.clone(),
                required_version: required.version.duplicate(),
                required_build_string: required.build_string.clone(),
            },
        ),
    }
}

/// Checks the required packages against the host's, in order, and stops at
/// the first that fails.
pub fn check_virtual_packages(
    required: &Vec<GenericVirtualPackage>,
    host: &Vec<GenericVirtualPackage>,
) -> (r: Result<(), VerifyCurrentPlatformError>)
    ensures
        outcome_view(r) == first_failure(generics_view(required@), generics_view(host@)),
{
    let ghost rv = generics_view(required@);
    let mut i: usize = 0;
    proof {
        assert(rv.take(0) =~= Seq::<GenericModel>::empty());
    }
    while i < required.len()
        invariant
            i <= required@.len(),
            rv == generics_view(required@),
            first_failure(rv.take(i as int), generics_view(host@)) is None,
        decreases required@.len() - i,
    {
        proof {
            assert(rv.take(i + 1).drop_last() =~= rv.take(i as int));
        }
        let checked = check_virtual_package(&required[i], host);
        if checked.is_err() {
            proof {
                lemma_first_failure_extends(rv.take(i + 1), rv.subrange(i + 1, rv.len() as int), generics_view(host@));
                assert(rv.take(i + 1) + rv.subrange(i + 1, rv.len() as int) =~= rv);
            }
            return checked;
        }
        i = i + 1;
    }
    proof {
        assert(rv.take(rv.len() as int) =~= rv);
    }
    Ok(())
}

proof fn lemma_first_failure_extends(s: Seq<GenericModel>, t: Seq<GenericModel>, host: Seq<GenericModel>)
    requires
        first_failure(s, host) is Some,
    ensures
        first_failure(s + t, host) == first_failure(s, host),
    decreases t.len(),
{
    if t.len() == 0 {
        assert(s + t =~= s);
    } else {
        lemma_first_failure_extends(s, t.drop_last(), host);
        assert((s + t).drop_last() =~= s + t.drop_last());
    }
}


/// The outcome of checking a host for an environment: the platform must be
/// supported, detection must have succeeded, the requirements must combine,
/// and then every required package must pass.
pub open spec fn verify_outcome(
    env: Environment,
    platform: Platform,
    defaults: DefaultVersions,
    detected: Result<Seq<GenericModel>, Seq<char>>,
) -> Option<VerifyErrorModel> {
    if !env.decl().platforms@.contains(platform) {
        Some(VerifyErrorModel::UnsupportedPlatform {
            environments_platforms: env.decl().platforms@,
            platform,
            environment: env.decl().name@,
        })
    } else {
        match detected {
            Err(message) => Some(VerifyErrorModel::DetectionVirtualPackagesError { message }),
            Ok(host) => match env.workspace.env_requirements(env.index) {
                None => Some(VerifyErrorModel::ConflictingSystemRequirements),
                Some(req) => first_failure(
                    minimal_packages(platform, req, defaults).map_values(|p: VirtualPackageModel| generic_of(p)),
                    host,
                ),
            },
        }
    }
}

/// The generic forms of the given packages, in order.
pub fn to_generic_packages(packages: &Vec<VirtualPackage>) -> (r: Vec<GenericVirtualPackage>)
    ensures
        generics_view(r@) == packages_view(packages@).map_values(|p: VirtualPackageModel| generic_of(p)),
{
    let mut r: Vec<GenericVirtualPackage> = Vec::new();
    let mut i: usize = 0;
    while i < packages.len()
        invariant
            i <= packages@.len(),
            generics_view(r@) == packages_view(packages@.take(i as int)).map_values(|p: VirtualPackageModel| generic_of(p)),
        decreases packages@.len() - i,
    {
        let ghost before = generics_view(r@);
        r.push(packages[i].to_generic());
        proof {
            assert(generics_view(r@) =~= before.push(generic_of(packages@[i as int]@)));
            assert(packages@.take(i + 1) =~= packages@.take(i as int).push(packages@[i as int]));
            assert(packages_view(packages@.take(i + 1)).map_values(|p: VirtualPackageModel| generic_of(p))
                =~= before.push(generic_of(packages@[i as int]@)));
        }
        i = i + 1;
    }
    proof {
        assert(packages@.take(packages@.len() as int) =~= packages@);
    }
    r
}

impl<'p> Environment<'p> {
    /// The virtual packages that the environment needs on a platform, from
    /// its system requirements.
    pub fn virtual_packages(&self, platform: Platform, defaults: &DefaultVersions) -> (r: Result<
        Vec<VirtualPackage>,
        MergeError,
    >)
        requires
            self.wf(),
        ensures
            r is Ok <==> self.workspace.env_requirements(self.index) is Some,
            r matches Ok(v) ==> packages_view(v@) == minimal_packages(
                platform,
                self.workspace.env_requirements(self.index)->Some_0,
                *defaults,
            ),
    {
        let req = self.system_requirements()?;
        Ok(get_minimal_virtual_packages(platform, &req, defaults))
    }
}

/// Fails with `UnsupportedPlatform` unless the environment supports the
/// platform.
pub fn check_platform_supported(environment: &Environment<'_>, current_platform: Platform) -> (r: Result<
    (),
    VerifyCurrentPlatformError,
>)
    requires
        environment.wf(),
    ensures
        outcome_view(r) == if environment.decl().platforms@.contains(current_platform) {
            None
        } else {
            Some(VerifyErrorModel::UnsupportedPlatform {
                environments_platforms: environment.decl().platforms@,
                platform: current_platform,
                environment: environment.decl().name@,
            })
        },
{
    let platforms = environment.platforms();
    let mut i: usize = 0;
    while i < platforms.len()
        invariant
            i <= platforms@.len(),
            platforms@ == environment.decl().platforms@,
            forall|k: int| 0 <= k < i ==> platforms@[k] != current_platform,
        decreases platforms@.len() - i,
    {
        if platforms[i] == current_platform {
            assert(platforms@[i as int] == current_platform);
            return Ok(());
        }
        i = i + 1;
    }
    Err(
        VerifyCurrentPlatformError::UnsupportedPlatform {
            environments_platforms: platforms.clone(),
            platform: current_platform,
            environment: environment.name().to_owned(),
        },
    )
}

pub open spec fn detected_view(d: Result<Vec<GenericVirtualPackage>, String>) -> Result<Seq<GenericModel>, Seq<char>> {
    match d {
        Ok(v) => Ok(generics_view(v@)),
        Err(m) => Err(m@),
    }
}

/// Verifies that the host can run the environment: that it supports the
/// host's platform, and that the packages detected on the host (or the
/// detection's failure message) meet the environment's minimal virtual
/// packages. Stops at the first failure.
pub fn verify_current_platform_has_required_virtual_packages(
    environment: &Environment<'_>,
    current_platform: Platform,
    defaults: &DefaultVersions,
    detected: &Result<Vec<GenericVirtualPackage>, String>,
) -> (r: Result<(), VerifyCurrentPlatformError>)
    requires
        environment.wf(),
    ensures
        outcome_view(r) == verify_outcome(*environment, current_platform, *defaults, detected_view(*detected)),
{
    check_platform_supported(environment, current_platform)?;
    let host = match detected {
        Ok(h) => h,
        Err(message) => {
            return Err(
                VerifyCurrentPlatformError::DetectionVirtualPackagesError { message: message.clone() },
            );
        },
    };
    let required = match environment.virtual_packages(current_platform, defaults) {
        Ok(v) => v,
        Err(error) => {
            return Err(VerifyCurrentPlatformError::ConflictingSystemRequirements { error });
        },
    };
    let generic = to_generic_packages(&required);
    check_virtual_packages(&generic, host)
}


/// The synthesised packages depend on the platform, the requirements and the
/// defaults alone: two results for the same inputs are the same list.
pub proof fn lemma_synthesis_deterministic(
    platform: Platform,
    req: SystemRequirementsModel,
    defaults: DefaultVersions,
    first: Seq<VirtualPackage>,
    second: Seq<VirtualPackage>,
)
    requires
        packages_view(first) == minimal_packages(platform, req, defaults),
        packages_view(second) == minimal_packages(platform, req, defaults),
    ensures
        packages_view(first) == packages_view(second),
{
}

/// Where the environment does not support the platform, the outcome is
/// `UnsupportedPlatform` whatever detection would give, so detection need
/// not run.
pub proof fn lemma_unsupported_platform_fails_fast(
    env: Environment,
    platform: Platform,
    defaults: DefaultVersions,
    detected: Result<Seq<GenericModel>, Seq<char>>,
)
    requires
        !env.decl().platforms@.contains(platform),
    ensures
        verify_outcome(env, platform, defaults, detected) == Some(VerifyErrorModel::UnsupportedPlatform {
            environments_platforms: env.decl().platforms@,
            platform,
            environment: env.decl().name@,
        }),
{
}

/// A host package of the required name and build passes when its version is
/// equal to or greater than the required one, and fails with
/// `MismatchingVersion`, carrying both versions, when it is lower.
pub proof fn lemma_version_tolerance(req: GenericModel, host: Seq<GenericModel>, local: GenericModel)
    requires
        req.name != archspec_name(),
        lookup(host, req.name) == Some(local),
        req.build_string == local.build_string,
    ensures
        version_order(req.version, local.version) != Ordering::Greater ==> package_verdict(req, host) is None,
        version_order(req.version, local.version) == Ordering::Greater ==> package_verdict(req, host) == Some(
            VerifyErrorModel::MismatchingVersion {
                required: req.name,
                required_version: req.version,
                local_version: local.version,
            },
        ),
{
}

/// A required architecture signature never fails the check, whether the
/// host lacks it or has another one: dropping it from the required packages
/// changes nothing.
pub proof fn lemma_archspec_exempt(reqs: Seq<GenericModel>, i: int, host: Seq<GenericModel>)
    requires
        0 <= i < reqs.len(),
        reqs[i].name == archspec_name(),
    ensures
        package_verdict(reqs[i], host) is None,
        first_failure(reqs, host) == first_failure(reqs.remove(i), host),
    decreases reqs.len(),
{
    if i == reqs.len() - 1 {
        assert(reqs.remove(i) =~= reqs.drop_last());
    } else {
        lemma_archspec_exempt(reqs.drop_last(), i, host);
        assert(reqs.remove(i).drop_last() =~= reqs.drop_last().remove(i));
        assert(reqs.remove(i).last() == reqs.last());
    }
}

} // verus!
