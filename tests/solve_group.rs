use std::collections::HashSet;

use pixi::platform::Platform;
use pixi::system_requirements::{LibCRequirement, MergeError, SystemRequirements};
use pixi::version::Version;
use pixi::workspace::{EnvironmentDecl, Feature, SolveGroupDecl, Workspace};

fn version(text: &str) -> Version {
    Version::parse(text.to_string()).unwrap()
}

fn feature(name: &str, deps: &[&str], requirements: SystemRequirements) -> Feature {
    Feature {
        name: name.to_string(),
        dependencies: deps.iter().map(|d| d.to_string()).collect(),
        system_requirements: requirements,
    }
}

fn env(name: &str, features: Vec<usize>, group: Option<usize>) -> EnvironmentDecl {
    EnvironmentDecl {
        name: name.to_string(),
        features,
        solve_group: group,
        platforms: vec![Platform::Linux64, Platform::Osx64],
    }
}

/// The workspace of a manifest with a default dependency `a`, feature `foo`
/// adding `b`, feature `bar` adding `c` and asking for cuda 12.0, and the
/// environments `foo` and `bar` in `group1` and `baz` (without the default
/// feature) in `group2`.
fn sample_workspace() -> Workspace {
    let mut cuda = SystemRequirements::none();
    cuda.cuda = Some(version("12.0"));
    Workspace {
        id: 1,
        solve_group_environments_dir: "/project/.pixi/solve-group-envs".to_string(),
        features: vec![
            feature("default", &["a"], SystemRequirements::none()),
            feature("foo", &["b"], SystemRequirements::none()),
            feature("bar", &["c"], cuda),
        ],
        environments: vec![
            env("default", vec![0], None),
            env("foo", vec![1, 0], Some(0)),
            env("bar", vec![2, 0], Some(0)),
            env("baz", vec![2], Some(1)),
        ],
        solve_groups: vec![
            SolveGroupDecl { name: "group1".to_string() },
            SolveGroupDecl { name: "group2".to_string() },
        ],
    }
}

fn names(deps: Vec<String>) -> HashSet<String> {
    deps.into_iter().collect()
}

fn expected(items: &[&str]) -> HashSet<String> {
    items.iter().map(|s| s.to_string()).collect()
}

#[test]
fn test_solve_group() {
    let project = sample_workspace();

    let environments = project.environments();
    assert_eq!(environments.len(), 4);

    let default_environment = project.default_environment().unwrap();
    let foo_environment = project.environment("foo").unwrap();
    let bar_environment = project.environment("bar").unwrap();

    let solve_groups = project.solve_groups();
    assert_eq!(solve_groups.len(), 2);

    let solve_group = solve_groups[0].clone();
    let solve_group_envs = solve_group.environments();
    assert_eq!(solve_group_envs.len(), 2);
    assert_eq!(solve_group_envs[0].name(), "foo");
    assert_eq!(solve_group_envs[1].name(), "bar");

    // The environments reference their group.
    assert_eq!(foo_environment.solve_group(), Some(solve_group.clone()));
    assert_eq!(bar_environment.solve_group(), Some(solve_group.clone()));
    assert_eq!(default_environment.solve_group(), None);

    // All environments of a group share its system requirements.
    let foo_system_requirements = foo_environment.system_requirements().unwrap();
    let bar_system_requirements = bar_environment.system_requirements().unwrap();
    let default_system_requirements = default_environment.system_requirements().unwrap();
    assert_eq!(foo_system_requirements.cuda.map(|v| v.as_str().to_string()), Some("12.0".to_string()));
    assert_eq!(bar_system_requirements.cuda.map(|v| v.as_str().to_string()), Some("12.0".to_string()));
    assert!(default_system_requirements.cuda.is_none());

    // 'group1' holds all the dependencies of its environments.
    assert_eq!(names(solve_group.combined_dependencies()), expected(&["a", "b", "c"]));

    // 'group2' does not hold 'a', a dependency of the default feature that
    // its only environment excludes.
    let solve_group = solve_groups[1].clone();
    assert_eq!(names(solve_group.combined_dependencies()), expected(&["c"]));
}

#[test]
fn group_requirements_take_the_set_cuda() {
    let project = sample_workspace();
    let group = project.solve_groups()[0];
    let merged = group.system_requirements().unwrap();
    assert_eq!(merged.cuda.unwrap().as_str(), "12.0");
    let default = project.default_environment().unwrap();
    assert!(default.system_requirements().unwrap().cuda.is_none());
}

#[test]
fn environments_appear_in_exactly_their_group() {
    let project = sample_workspace();
    let groups = project.solve_groups();
    let members: Vec<Vec<String>> = groups
        .iter()
        .map(|g| g.environments().iter().map(|e| e.name().to_string()).collect())
        .collect();
    assert_eq!(members, vec![vec!["foo".to_string(), "bar".to_string()], vec!["baz".to_string()]]);
    assert_eq!(project.environment("baz").unwrap().solve_group(), Some(groups[1]));
    assert_ne!(groups[0], groups[1]);
}

#[test]
fn group_features_first_seen_order() {
    let project = sample_workspace();
    let group = project.solve_groups()[0];
    let order: Vec<&str> = group.features().iter().map(|f| project.features[*f].name.as_str()).collect();
    assert_eq!(order, vec!["foo", "default", "bar"]);
    let group2 = project.solve_groups()[1];
    let order2: Vec<&str> = group2.features().iter().map(|f| project.features[*f].name.as_str()).collect();
    assert_eq!(order2, vec!["bar"]);
}

#[test]
fn combined_dependencies_order_and_no_repeats() {
    let project = sample_workspace();
    let group = project.solve_groups()[0];
    assert_eq!(group.combined_dependencies(), vec!["b".to_string(), "a".to_string(), "c".to_string()]);
}

#[test]
fn solve_group_directory_and_name() {
    let project = sample_workspace();
    let group = project.solve_groups()[1];
    assert_eq!(group.name(), "group2");
    assert_eq!(group.dir(), "/project/.pixi/solve-group-envs/group2");
}

#[test]
fn group_views_of_other_workspaces_differ() {
    let first = sample_workspace();
    let mut second = sample_workspace();
    second.id = 2;
    assert_eq!(first.solve_groups()[0], first.solve_groups()[0]);
    assert_ne!(first.solve_groups()[0], second.solve_groups()[0]);
}

#[test]
fn missing_environment_is_none() {
    let project = sample_workspace();
    assert!(project.environment("nope").is_none());
}

#[test]
fn merge_keeps_highest_versions() {
    let mut a = SystemRequirements::none();
    a.linux = Some(version("4.18"));
    a.macos = Some(version("13.0"));
    a.libc = Some(LibCRequirement { family: "glibc".to_string(), version: version("2.17") });
    let mut b = SystemRequirements::none();
    b.linux = Some(version("5.10"));
    b.macos = Some(version("12.3"));
    b.cuda = Some(version("11.8"));
    b.libc = Some(LibCRequirement { family: "glibc".to_string(), version: version("2.28") });
    let m = a.merge(&b).unwrap();
    assert_eq!(m.linux.unwrap().as_str(), "5.10");
    assert_eq!(m.macos.unwrap().as_str(), "13.0");
    assert_eq!(m.cuda.unwrap().as_str(), "11.8");
    let libc = m.libc.unwrap();
    assert_eq!(libc.family, "glibc");
    assert_eq!(libc.version.as_str(), "2.28");
}

#[test]
fn merge_compares_versions_numerically() {
    let mut a = SystemRequirements::none();
    a.cuda = Some(version("12.10"));
    let mut b = SystemRequirements::none();
    b.cuda = Some(version("12.9"));
    assert_eq!(a.merge(&b).unwrap().cuda.unwrap().as_str(), "12.10");
    assert_eq!(b.merge(&a).unwrap().cuda.unwrap().as_str(), "12.10");
}

#[test]
fn merge_rejects_different_libc_families() {
    let mut a = SystemRequirements::none();
    a.libc = Some(LibCRequirement { family: "glibc".to_string(), version: version("2.17") });
    let mut b = SystemRequirements::none();
    b.libc = Some(LibCRequirement { family: "musl".to_string(), version: version("1.2") });
    assert_eq!(
        a.merge(&b).unwrap_err(),
        MergeError::DifferentLibcFamilies { first: "glibc".to_string(), second: "musl".to_string() }
    );
}

#[test]
fn version_parse_rejects_garbage() {
    assert!(Version::parse(String::new()).is_none());
    assert_eq!(Version::parse("1.2.3".to_string()).unwrap().as_str(), "1.2.3");
}
