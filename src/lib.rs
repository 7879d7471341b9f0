//! Solve-group aggregation and virtual-package compatibility checks for
//! multi-environment workspaces.

pub mod cli;
pub mod platform;
pub mod solve_group;
pub mod system_requirements;
pub mod version;
pub mod virtual_packages;
pub mod workspace;
