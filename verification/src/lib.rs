//! Manifests of PKGBUILD sources and their normalization.
//!
//! A manifest groups build recipes, local directories or git repositories
//! that hold a PKGBUILD, under shared and templated properties. Normalizing
//! it gives one description for each recipe, in the order of declaration,
//! with every template rendered for the recipe it belongs to.

pub mod config;
pub mod file_base_name;
pub mod manifest;
pub mod pkgbuild_desc;
pub mod pkgbuild_group;
pub mod pkgbuild_name;
pub mod repo_name;
pub mod template;
pub mod text;
