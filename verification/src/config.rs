//! Data stored in a configuration file.

use crate::file_base_name::{is_base_name, FileBaseName};
use crate::repo_name::{is_repo_name, validation, RepoName};
use vstd::prelude::*;

verus! {

/// Data stored in a configuration file.
#[derive(Debug, Clone, PartialEq, Eq)]
pub struct Config {
    /// The name of or path to the CLI program to build images and run containers.
    ///
    /// This program reads from a [manifest file](Config::container_file).
    ///
    /// Examples: `docker`, `podman`.
    pub container_manager: String,
    /// The name of the manifest file to be read by the [container manager](Config::container_manager).
    ///
    /// This name must be a base name, not a path.
    ///
    /// Examples: `Dockerfile`, `Containerfile`.
    pub container_file: FileBaseName,
    /// Directory to store all the repositories that contain PKGBUILD and .SRCINFO.
    ///
    /// The path is relative to the configuration file.
    pub pkgbuild_dir: Option<String>,
    /// Directory to store all the directories to build container images in.
    ///
    /// The path is relative to the configuration file.
    pub container_dir: Option<String>,
    /// Directory to store all the built pacman package archives.
    ///
    /// The path is relative to the configuration file.
    pub package_dir: Option<String>,
    /// Name of the repository of the built pacman packages.
    pub repo_name: RepoName,
}

/// Error when a field of a configuration holds a value that it may not hold.
/// It names the field and carries the value.
#[derive(Debug, Clone, PartialEq, Eq)]
pub enum InvalidField {
    /// The name of the container file is no base name.
    ContainerFile { value: String, error: crate::file_base_name::ValidateError },
    /// The name of the repository is no repository name.
    RepoName { value: String, error: crate::repo_name::ValidateError },
}

impl InvalidField {
    /// Whether this error is the one owed for the two values: the container
    /// file is looked at first, and the error carries the offending value.
    pub open spec fn explains(&self, container_file: Seq<char>, repo_name: Seq<char>) -> bool {
        match *self {
            InvalidField::ContainerFile { value, error } => {
                &&& !is_base_name(container_file)
                &&& value@ == container_file
            },
            InvalidField::RepoName { value, error } => {
                &&& is_base_name(container_file)
                &&& validation(repo_name) == Err::<(), _>(error)
                &&& value@ == repo_name
            },
        }
    }
}

/// Validates the two fields of a configuration that are more than text: the
/// name of the container file first, then the name of the repository.
pub fn validate_fields(container_file: String, repo_name: String) -> (result: Result<
    (FileBaseName, RepoName),
    InvalidField,
>)
    ensures
        match result {
            Ok((file, repo)) => {
                &&& file@ == container_file@
                &&& repo@ == repo_name@
                &&& is_base_name(container_file@)
                &&& is_repo_name(repo_name@)
            },
            Err(error) => error.explains(container_file@, repo_name@),
        },
{
    if let Err(error) = FileBaseName::validate(container_file.as_str()) {
        return Err(InvalidField::ContainerFile { value: container_file, error });
    }
    if let Err(error) = RepoName::validate(repo_name.as_str()) {
        return Err(InvalidField::RepoName { value: repo_name, error });
    }
    let file = FileBaseName::try_from_string(container_file).unwrap();
    let repo = RepoName::try_from_string(repo_name).unwrap();
    Ok((file, repo))
}

impl Config {
    /// Makes a configuration of the values of its fields. It is had exactly
    /// where the container file is a base name and the repository name is
    /// one.
    pub fn new(
        container_manager: String,
        container_file: String,
        pkgbuild_dir: Option<String>,
        container_dir: Option<String>,
        package_dir: Option<String>,
        repo_name: String,
    ) -> (result: Result<Config, InvalidField>)
        ensures
            match result {
                Ok(config) => {
                    &&& is_base_name(container_file@)
                    &&& is_repo_name(repo_name@)
                    &&& config.container_manager == container_manager
                    &&& config.container_file@ == container_file@
                    &&& config.pkgbuild_dir == pkgbuild_dir
                    &&& config.container_dir == container_dir
                    &&& config.package_dir == package_dir
                    &&& config.repo_name@ == repo_name@
                },
                Err(error) => error.explains(container_file@, repo_name@),
            },
    {
        match validate_fields(container_file, repo_name) {
            Ok((container_file, repo_name)) => Ok(
                Config {
                    container_manager,
                    container_file,
                    pkgbuild_dir,
                    container_dir,
                    package_dir,
                    repo_name,
                },
            ),
            Err(error) => Err(error),
        }
    }
}

} // verus!
