//! Data stored in a manifest file.

use crate::config::{validate_fields, InvalidField};
use crate::file_base_name::{is_base_name, FileBaseName};
use crate::pkgbuild_desc::PkgBuildDesc;
use crate::pkgbuild_group::{
    is_normalization, normalize_plainly, normalize_sources, NormalizeError, PkgBuildGroup,
};
use crate::repo_name::{is_repo_name, RepoName};
use crate::template::params::{QueryCmd, QueryCommon, QueryEnv};
use vstd::prelude::*;

verus! {

/// Data stored in a manifest file.
#[derive(Debug, Clone, PartialEq, Eq)]
pub struct Manifest {
    /// The name of or path to the CLI program to build images and run containers.
    ///
    /// This program reads from a [manifest file](Manifest::container_file).
    ///
    /// Examples: `docker`, `podman`.
    pub container_manager: String,
    /// The name of the manifest file to be read by the [container manager](Manifest::container_manager).
    ///
    /// This name must be a base name, not a path.
    ///
    /// Examples: `Dockerfile`, `Containerfile`.
    pub container_file: FileBaseName,
    /// Directory to store all the repositories that contain PKGBUILD and .SRCINFO.
    ///
    /// The path is relative to the manifest file.
    pub pkgbuild_dir: Option<String>,
    /// Directory to store all the directories to build container images in.
    ///
    /// The path is relative to the manifest file.
    pub container_dir: Option<String>,
    /// Directory to store all the built pacman package archives.
    ///
    /// The path is relative to the manifest file.
    pub package_dir: Option<String>,
    /// Name of the repository of the built pacman packages.
    pub repo_name: RepoName,
    /// Sources from whence to fetch PKGBUILD and .SRCINFO to build packages.
    pub sources: Vec<PkgBuildGroup>,
}

impl Manifest {
    /// Makes a manifest of the values of its fields. It is had exactly where
    /// the container file is a base name and the repository name is one.
    pub fn new(
        container_manager: String,
        container_file: String,
        pkgbuild_dir: Option<String>,
        container_dir: Option<String>,
        package_dir: Option<String>,
        repo_name: String,
        sources: Vec<PkgBuildGroup>,
    ) -> (result: Result<Manifest, InvalidField>)
        ensures
            match result {
                Ok(manifest) => {
                    &&& is_base_name(container_file@)
                    &&& is_repo_name(repo_name@)
                    &&& manifest.container_manager == container_manager
                    &&& manifest.container_file@ == container_file@
                    &&& manifest.pkgbuild_dir == pkgbuild_dir
                    &&& manifest.container_dir == container_dir
                    &&& manifest.package_dir == package_dir
                    &&& manifest.repo_name@ == repo_name@
                    &&& manifest.sources == sources
                },
                Err(error) => error.explains(container_file@, repo_name@),
            },
    {
        match validate_fields(container_file, repo_name) {
            Ok((container_file, repo_name)) => Ok(
                Manifest {
                    container_manager,
                    container_file,
                    pkgbuild_dir,
                    container_dir,
                    package_dir,
                    repo_name,
                    sources,
                },
            ),
            Err(error) => Err(error),
        }
    }

    /// The descriptions of all recipes that the manifest declares, in the
    /// order of declaration.
    pub fn normalize<Outer>(self, outer: &Outer) -> (result: Result<
        Vec<PkgBuildDesc>,
        NormalizeError<<Outer as QueryEnv>::Error, <Outer as QueryCmd>::Error>,
    >) where
        Outer: QueryCommon<Value = String> + QueryEnv<Name = String> + QueryCmd<Command = String>,

        ensures
            match result {
                Ok(descs) => is_normalization(self.sources@, descs.deep_view()),
                Err(error) => error.explains(self.sources@),
            },
            normalize_plainly(self.sources@) ==> result is Ok,
    {
        normalize_sources(self.sources, outer)
    }
}

} // verus!
