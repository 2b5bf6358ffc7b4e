//! Code-intelligence index: file inventory, syntax extraction, call graph and
//! a version-ranged index of external packages.

pub mod call_graph;
pub mod daemon;
pub mod ecosystems;
pub mod external_packages;
pub mod file_index;
pub mod inventory_stats;
pub mod languages;
pub mod ordering;
pub mod package_indexing;
pub mod packages;
pub mod path_resolve;
pub mod paths;
pub mod resolution;
pub mod scope_analysis;
pub mod scopes;
pub mod symbols;
pub mod syntax;
pub mod text;
pub mod tree;
pub mod version;
pub mod workflow;
