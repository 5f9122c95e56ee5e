use pkgbuild_manifest::config::{validate_fields, Config, InvalidField};
use pkgbuild_manifest::manifest::Manifest;
use pkgbuild_manifest::pkgbuild_desc::{LocalPkgBuildDesc, PkgBuildDesc};
use pkgbuild_manifest::pkgbuild_group::local::{
    LocalPkgBuildGroup, LocalPkgBuildHeader, LocalPkgBuildMember,
};
use pkgbuild_manifest::pkgbuild_group::PkgBuildGroup;
use pkgbuild_manifest::pkgbuild_name::PkgBuildName;
use pkgbuild_manifest::template::params::{QueryCmd, QueryCommon, QueryEnv};

struct Nothing;

impl QueryCommon for Nothing {
    type Value = String;
}

impl QueryEnv for Nothing {
    type Name = String;
    type Error = ();

    fn env(&self, _name: String) -> Result<Option<String>, ()> {
        Ok(None)
    }
}

impl QueryCmd for Nothing {
    type Command = String;
    type Error = ();

    fn run(&self, _command: String) -> Result<String, ()> {
        Err(())
    }
}

fn s(text: &str) -> String {
    text.to_string()
}

fn sources() -> Vec<PkgBuildGroup> {
    vec![PkgBuildGroup::Local(LocalPkgBuildGroup {
        header: LocalPkgBuildHeader { dir_path_template: s("pkgbuilds/{{ base }}") },
        members: vec![LocalPkgBuildMember::SimpleName(s("foo")), LocalPkgBuildMember::SimpleName(s("bar"))],
    })]
}

fn manifest(container_file: &str, repo_name: &str) -> Result<Manifest, InvalidField> {
    Manifest::new(s("podman"), s(container_file), Some(s("pkgbuilds")), None, Some(s("out")), s(repo_name), sources())
}

#[test]
fn manifest_with_valid_fields() {
    let manifest = manifest("Containerfile", "my-repo").unwrap();
    assert_eq!(manifest.container_manager, "podman");
    assert_eq!(manifest.container_file.as_str(), "Containerfile");
    assert_eq!(manifest.pkgbuild_dir, Some(s("pkgbuilds")));
    assert_eq!(manifest.container_dir, None);
    assert_eq!(manifest.package_dir, Some(s("out")));
    assert_eq!(manifest.repo_name.as_str(), "my-repo");
    assert_eq!(manifest.sources, sources());
}

#[test]
fn manifest_with_invalid_container_file() {
    assert_eq!(
        manifest("build/Containerfile", "my-repo"),
        Err(InvalidField::ContainerFile {
            value: s("build/Containerfile"),
            error: pkgbuild_manifest::file_base_name::ValidateError::NotAName,
        })
    );
}

#[test]
fn manifest_with_invalid_repo_name() {
    assert_eq!(
        manifest("Containerfile", "My-Repo"),
        Err(InvalidField::RepoName {
            value: s("My-Repo"),
            error: pkgbuild_manifest::repo_name::ValidateError::InvalidFirstChar('M'),
        })
    );
    assert_eq!(
        manifest("Containerfile", ""),
        Err(InvalidField::RepoName {
            value: s(""),
            error: pkgbuild_manifest::repo_name::ValidateError::Empty,
        })
    );
}

#[test]
fn container_file_is_looked_at_first() {
    assert_eq!(
        manifest("..", "bad name"),
        Err(InvalidField::ContainerFile {
            value: s(".."),
            error: pkgbuild_manifest::file_base_name::ValidateError::NotAName,
        })
    );
}

#[test]
fn manifest_normalizes_its_sources() {
    let descs = manifest("Containerfile", "repo").unwrap().normalize(&Nothing);
    assert_eq!(
        descs,
        Ok(vec![
            PkgBuildDesc::Local(LocalPkgBuildDesc { package: PkgBuildName::single(s("foo")), dir: s("pkgbuilds/foo") }),
            PkgBuildDesc::Local(LocalPkgBuildDesc { package: PkgBuildName::single(s("bar")), dir: s("pkgbuilds/bar") }),
        ])
    );
}

#[test]
fn config_with_valid_and_invalid_fields() {
    let config = Config::new(s("docker"), s("Dockerfile"), None, Some(s("containers")), None, s("repo_1")).unwrap();
    assert_eq!(config.container_manager, "docker");
    assert_eq!(config.container_file.as_str(), "Dockerfile");
    assert_eq!(config.pkgbuild_dir, None);
    assert_eq!(config.container_dir, Some(s("containers")));
    assert_eq!(config.package_dir, None);
    assert_eq!(config.repo_name.as_str(), "repo_1");
    assert_eq!(
        Config::new(s("docker"), s("Dockerfile"), None, None, None, s("repo.1")),
        Err(InvalidField::RepoName {
            value: s("repo.1"),
            error: pkgbuild_manifest::repo_name::ValidateError::InvalidChar('.'),
        })
    );
    assert_eq!(
        Config::new(s("docker"), s(""), None, None, None, s("repo")),
        Err(InvalidField::ContainerFile {
            value: s(""),
            error: pkgbuild_manifest::file_base_name::ValidateError::NotAName,
        })
    );
}

#[test]
fn validated_fields_keep_their_text() {
    let (file, repo) = validate_fields(s("Containerfile"), s("core")).unwrap();
    assert_eq!(file.into_string(), "Containerfile");
    assert_eq!(repo.into_string(), "core");
}
