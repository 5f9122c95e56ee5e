use pkgbuild_manifest::pkgbuild_desc::{GitPkgBuildDesc, LocalPkgBuildDesc, PkgBuildDesc};
use pkgbuild_manifest::pkgbuild_group::git::{
    GitPkgBuildComplexMember, GitPkgBuildGroup, GitPkgBuildHeader, GitPkgBuildMember,
};
use pkgbuild_manifest::pkgbuild_group::local::{
    LocalPkgBuildComplexMember, LocalPkgBuildGroup, LocalPkgBuildHeader, LocalPkgBuildMember,
};
use pkgbuild_manifest::pkgbuild_group::{
    normalize_sources, FieldError, MemberError, NormalizeError, PkgBuildGroup, TemplateField,
};
use pkgbuild_manifest::pkgbuild_name::PkgBuildName;
use pkgbuild_manifest::template::params::{
    QueryCmd, QueryCommon, QueryEnv, QueryTemplateParamError,
};
use pkgbuild_manifest::template::render::{PlaceholderError, RenderError};
use std::cell::Cell;

/// An environment in which `ONCE` is set for the first lookup only.
struct Outer {
    once: Cell<bool>,
}

impl Outer {
    fn new() -> Self {
        Outer { once: Cell::new(true) }
    }
}

impl QueryCommon for Outer {
    type Value = String;
}

impl QueryEnv for Outer {
    type Name = String;
    type Error = String;

    fn env(&self, name: String) -> Result<Option<String>, String> {
        match name.as_str() {
            "BRANCH" => Ok(Some("main".to_string())),
            "ONCE" => Ok(if self.once.replace(false) { Some("first".to_string()) } else { None }),
            _ => Ok(None),
        }
    }
}

impl QueryCmd for Outer {
    type Command = String;
    type Error = i32;

    fn run(&self, command: String) -> Result<String, i32> {
        match command.strip_prefix("echo ") {
            Some(rest) => Ok(rest.to_string()),
            None => Err(1),
        }
    }
}

fn s(text: &str) -> String {
    text.to_string()
}

fn split(base: &str, names: &[&str]) -> PkgBuildName {
    PkgBuildName::split(s(base), names.iter().map(|name| s(name)).collect())
}

fn local(package: PkgBuildName, dir: &str) -> PkgBuildDesc {
    PkgBuildDesc::Local(LocalPkgBuildDesc { package, dir: s(dir) })
}

fn git_header(url: &str, depth: Option<u64>, git_ref: Option<&str>, sub_dir: Option<&str>) -> GitPkgBuildHeader {
    GitPkgBuildHeader {
        git_url_template: s(url),
        git_depth: depth,
        git_ref_template: git_ref.map(s),
        sub_dir_template: sub_dir.map(s),
    }
}

fn git_member(name: &str) -> GitPkgBuildComplexMember {
    GitPkgBuildComplexMember::with_single_name(s(name))
}

fn no_env(field: TemplateField) -> FieldError<String, i32> {
    FieldError {
        field,
        cause: RenderError::Placeholder {
            index: 0,
            error: PlaceholderError::Query(QueryTemplateParamError::NoEnv),
        },
    }
}

#[test]
fn local_member_by_bare_name() {
    let header = LocalPkgBuildHeader { dir_path_template: s("pkgbuilds/{{ base }}") };
    let desc = header.apply(LocalPkgBuildMember::SimpleName(s("foo")), &Outer::new());
    assert_eq!(
        desc,
        Ok(LocalPkgBuildDesc { package: PkgBuildName::single(s("foo")), dir: s("pkgbuilds/foo") })
    );
}

#[test]
fn local_member_of_split_recipe_renders_with_its_base() {
    let header = LocalPkgBuildHeader { dir_path_template: s("{{base}}/trunk") };
    let member = LocalPkgBuildMember::ComplexSpec(LocalPkgBuildComplexMember {
        package: split("gcc", &["gcc-libs", "gcc-fortran"]),
    });
    assert_eq!(member.clone().into_package(), split("gcc", &["gcc-libs", "gcc-fortran"]));
    assert_eq!(
        header.apply(member, &Outer::new()),
        Ok(LocalPkgBuildDesc {
            package: split("gcc", &["gcc-libs", "gcc-fortran"]),
            dir: s("gcc/trunk"),
        })
    );
}

#[test]
fn local_template_without_placeholder_is_kept() {
    let header = LocalPkgBuildHeader { dir_path_template: s("all/in/one") };
    let desc = header.apply(LocalPkgBuildMember::SimpleName(s("foo")), &Outer::new()).unwrap();
    assert_eq!(desc.dir, "all/in/one");
}

#[test]
fn local_group_appends_in_member_order() {
    let group = LocalPkgBuildGroup {
        header: LocalPkgBuildHeader { dir_path_template: s("p/{{ base }}") },
        members: vec![
            LocalPkgBuildMember::SimpleName(s("b")),
            LocalPkgBuildMember::ComplexSpec(LocalPkgBuildComplexMember { package: split("a", &["a1"]) }),
            LocalPkgBuildMember::SimpleName(s("c")),
        ],
    };
    let mut target = vec![local(PkgBuildName::single(s("first")), "here")];
    assert_eq!(group.normalize(&Outer::new(), &mut target), Ok(()));
    assert_eq!(
        target,
        vec![
            local(PkgBuildName::single(s("first")), "here"),
            local(PkgBuildName::single(s("b")), "p/b"),
            local(split("a", &["a1"]), "p/a"),
            local(PkgBuildName::single(s("c")), "p/c"),
        ]
    );
}

#[test]
fn local_group_fails_fast_with_no_description() {
    let group = LocalPkgBuildGroup {
        header: LocalPkgBuildHeader { dir_path_template: s("{{ env:ONCE }}/{{ base }}") },
        members: vec![LocalPkgBuildMember::SimpleName(s("a")), LocalPkgBuildMember::SimpleName(s("b"))],
    };
    let mut target = Vec::new();
    assert_eq!(
        group.normalize(&Outer::new(), &mut target),
        Err(MemberError { member: 1, error: no_env(TemplateField::DirPath) })
    );
    assert_eq!(target, Vec::new());
}

#[test]
fn failing_group_leaves_earlier_descriptions_alone() {
    let group = PkgBuildGroup::Local(LocalPkgBuildGroup {
        header: LocalPkgBuildHeader { dir_path_template: s("{{ env:ONCE }}/{{ base }}") },
        members: vec![LocalPkgBuildMember::SimpleName(s("a")), LocalPkgBuildMember::SimpleName(s("b"))],
    });
    let mut target = vec![local(PkgBuildName::single(s("kept")), "k")];
    assert!(group.normalize(&Outer::new(), &mut target).is_err());
    assert_eq!(target, vec![local(PkgBuildName::single(s("kept")), "k")]);
}

#[test]
fn empty_group_gives_nothing_even_with_a_bad_template() {
    let group = LocalPkgBuildGroup {
        header: LocalPkgBuildHeader { dir_path_template: s("{{ unclosed") },
        members: Vec::new(),
    };
    let mut target = Vec::new();
    assert_eq!(group.normalize(&Outer::new(), &mut target), Ok(()));
    assert_eq!(target, Vec::new());
}

#[test]
fn git_member_by_bare_name_takes_everything_from_the_header() {
    let header = git_header(
        "https://aur.example/{{ base }}.git",
        Some(1),
        Some("{{ env:BRANCH }}"),
        Some("pkg/{{ base }}"),
    );
    assert_eq!(
        header.apply(GitPkgBuildMember::SimpleName(s("foo")), &Outer::new()),
        Ok(GitPkgBuildDesc {
            package: PkgBuildName::single(s("foo")),
            git_url: s("https://aur.example/foo.git"),
            git_depth: Some(1),
            git_ref: Some(s("main")),
            sub_dir: Some(s("pkg/foo")),
        })
    );
}

#[test]
fn git_member_overrides_win_over_the_header() {
    let header = git_header("https://aur.example/{{ base }}.git", Some(1), Some("{{ env:BRANCH }}"), Some("pkg"));
    let member = GitPkgBuildComplexMember {
        package: split("gcc", &["gcc", "gcc-libs"]),
        git_url: Some(s("https://mirror.example/{{ base }}")),
        git_depth: Some(50),
        git_ref: Some(s("v{{ base }}")),
        sub_dir: Some(s("")),
    };
    assert_eq!(
        header.apply(GitPkgBuildMember::ComplexSpec(member), &Outer::new()),
        Ok(GitPkgBuildDesc {
            package: split("gcc", &["gcc", "gcc-libs"]),
            git_url: s("https://mirror.example/{{ base }}"),
            git_depth: Some(50),
            git_ref: Some(s("v{{ base }}")),
            sub_dir: Some(s("")),
        })
    );
}

#[test]
fn git_ref_override_wins_whatever_the_header_template() {
    for template in [None, Some("{{ base }}"), Some("{{ env:NOPE }}"), Some("{{ what }}"), Some("{{ unclosed")] {
        let header = git_header("u", None, template, None);
        let member = GitPkgBuildComplexMember { git_ref: Some(s("stable")), ..git_member("foo") };
        let desc = header.apply(GitPkgBuildMember::ComplexSpec(member), &Outer::new()).unwrap();
        assert_eq!(desc.git_ref, Some(s("stable")));
    }
}

#[test]
fn git_depth_is_absent_without_override_and_default() {
    let header = git_header("u", None, None, None);
    let desc = header.apply(GitPkgBuildMember::SimpleName(s("foo")), &Outer::new()).unwrap();
    assert_eq!(desc.git_depth, None);
    let member = GitPkgBuildComplexMember { git_url: Some(s("x")), ..git_member("foo") };
    let desc = header.apply(GitPkgBuildMember::ComplexSpec(member), &Outer::new()).unwrap();
    assert_eq!(desc.git_depth, None);
}

#[test]
fn git_depth_override_and_default() {
    let header = git_header("u", Some(3), None, None);
    let desc = header.apply(GitPkgBuildMember::SimpleName(s("foo")), &Outer::new()).unwrap();
    assert_eq!(desc.git_depth, Some(3));
    let member = GitPkgBuildComplexMember { git_depth: Some(0), ..git_member("foo") };
    let desc = header.apply(GitPkgBuildMember::ComplexSpec(member), &Outer::new()).unwrap();
    assert_eq!(desc.git_depth, Some(0));
    let member = GitPkgBuildComplexMember { git_depth: Some(u64::MAX), ..git_member("foo") };
    let desc = git_header("u", None, None, None)
        .apply(GitPkgBuildMember::ComplexSpec(member), &Outer::new())
        .unwrap();
    assert_eq!(desc.git_depth, Some(u64::MAX));
}

#[test]
fn git_optional_fields_are_absent_without_override_and_template() {
    let header = git_header("https://host/{{ base }}", None, None, None);
    assert_eq!(
        header.apply(GitPkgBuildMember::SimpleName(s("foo")), &Outer::new()),
        Ok(GitPkgBuildDesc {
            package: PkgBuildName::single(s("foo")),
            git_url: s("https://host/foo"),
            git_depth: None,
            git_ref: None,
            sub_dir: None,
        })
    );
}

#[test]
fn git_member_normalizes_to_complex_form() {
    assert_eq!(
        GitPkgBuildMember::SimpleName(s("foo")).normalize(),
        GitPkgBuildComplexMember {
            package: PkgBuildName::single(s("foo")),
            git_url: None,
            git_depth: None,
            git_ref: None,
            sub_dir: None,
        }
    );
    let member = GitPkgBuildComplexMember { sub_dir: Some(s("d")), ..git_member("bar") };
    assert_eq!(GitPkgBuildMember::ComplexSpec(member.clone()).normalize(), member);
}

#[test]
fn git_failure_names_the_first_failing_field() {
    let header = git_header("{{ env:NOPE }}", None, Some("{{ env:NOPE }}"), Some("{{ env:NOPE }}"));
    assert_eq!(
        header.apply(GitPkgBuildMember::SimpleName(s("foo")), &Outer::new()),
        Err(no_env(TemplateField::GitUrl))
    );
    let member = GitPkgBuildComplexMember { git_url: Some(s("u")), ..git_member("foo") };
    assert_eq!(
        header.apply(GitPkgBuildMember::ComplexSpec(member), &Outer::new()),
        Err(no_env(TemplateField::GitRef))
    );
    let member = GitPkgBuildComplexMember { git_url: Some(s("u")), git_ref: Some(s("r")), ..git_member("foo") };
    assert_eq!(
        header.apply(GitPkgBuildMember::ComplexSpec(member), &Outer::new()),
        Err(no_env(TemplateField::SubDir))
    );
    let header = git_header("{{ base", None, None, None);
    assert_eq!(
        header.apply(GitPkgBuildMember::SimpleName(s("foo")), &Outer::new()),
        Err(FieldError { field: TemplateField::GitUrl, cause: RenderError::UnclosedPlaceholder })
    );
}

#[test]
fn git_group_appends_in_member_order() {
    let group = GitPkgBuildGroup {
        header: git_header("https://h/{{ base }}.git", Some(1), None, None),
        members: vec![
            GitPkgBuildMember::SimpleName(s("x")),
            GitPkgBuildMember::ComplexSpec(GitPkgBuildComplexMember { git_depth: Some(9), ..git_member("y") }),
        ],
    };
    let mut target = Vec::new();
    assert_eq!(group.normalize(&Outer::new(), &mut target), Ok(()));
    assert_eq!(
        target,
        vec![
            PkgBuildDesc::Git(GitPkgBuildDesc {
                package: PkgBuildName::single(s("x")),
                git_url: s("https://h/x.git"),
                git_depth: Some(1),
                git_ref: None,
                sub_dir: None,
            }),
            PkgBuildDesc::Git(GitPkgBuildDesc {
                package: PkgBuildName::single(s("y")),
                git_url: s("https://h/y.git"),
                git_depth: Some(9),
                git_ref: None,
                sub_dir: None,
            }),
        ]
    );
}

#[test]
fn git_group_fails_fast_with_no_description() {
    let group = GitPkgBuildGroup {
        header: git_header("https://h/{{ base }}", None, Some("{{ env:ONCE }}"), None),
        members: vec![
            GitPkgBuildMember::SimpleName(s("x")),
            GitPkgBuildMember::SimpleName(s("y")),
            GitPkgBuildMember::SimpleName(s("z")),
        ],
    };
    let mut target = Vec::new();
    assert_eq!(
        group.normalize(&Outer::new(), &mut target),
        Err(MemberError { member: 1, error: no_env(TemplateField::GitRef) })
    );
    assert_eq!(target, Vec::new());
}

#[test]
fn single_description_passes_unchanged() {
    let desc = local(PkgBuildName::single(s("foo")), "{{ not rendered");
    let mut target = Vec::new();
    assert_eq!(PkgBuildGroup::Single(desc.clone()).normalize(&Outer::new(), &mut target), Ok(()));
    assert_eq!(target, vec![desc]);
}

fn sources() -> Vec<PkgBuildGroup> {
    vec![
        PkgBuildGroup::Single(local(PkgBuildName::single(s("one")), "dir/one")),
        PkgBuildGroup::Local(LocalPkgBuildGroup {
            header: LocalPkgBuildHeader { dir_path_template: s("local/{{ base }}") },
            members: vec![LocalPkgBuildMember::SimpleName(s("two")), LocalPkgBuildMember::SimpleName(s("three"))],
        }),
        PkgBuildGroup::Git(GitPkgBuildGroup { header: git_header("g/{{ base }}", None, None, None), members: Vec::new() }),
        PkgBuildGroup::Git(GitPkgBuildGroup {
            header: git_header("g/{{ base }}", None, None, None),
            members: vec![
                GitPkgBuildMember::SimpleName(s("four")),
                GitPkgBuildMember::SimpleName(s("five")),
                GitPkgBuildMember::SimpleName(s("six")),
            ],
        }),
        PkgBuildGroup::Single(local(PkgBuildName::single(s("seven")), "dir/seven")),
    ]
}

#[test]
fn sources_are_normalized_in_declaration_order() {
    let descs = normalize_sources(sources(), &Outer::new()).unwrap();
    let names: Vec<String> = descs
        .iter()
        .map(|desc| match desc {
            PkgBuildDesc::Local(desc) => desc.package.base().clone(),
            PkgBuildDesc::Git(desc) => desc.package.base().clone(),
        })
        .collect();
    assert_eq!(names, vec!["one", "two", "three", "four", "five", "six", "seven"]);
    assert_eq!(descs.len(), 1 + 2 + 0 + 3 + 1);
    assert_eq!(descs[2], local(PkgBuildName::single(s("three")), "local/three"));
    assert_eq!(
        descs[4],
        PkgBuildDesc::Git(GitPkgBuildDesc {
            package: PkgBuildName::single(s("five")),
            git_url: s("g/five"),
            git_depth: None,
            git_ref: None,
            sub_dir: None,
        })
    );
}

#[test]
fn no_sources_give_no_descriptions() {
    assert_eq!(normalize_sources(Vec::new(), &Outer::new()), Ok(Vec::new()));
}

#[test]
fn failing_sources_name_group_member_and_field() {
    let mut sources = sources();
    sources.push(PkgBuildGroup::Git(GitPkgBuildGroup {
        header: git_header("g/{{ base }}", None, None, Some("{{ env:ONCE }}")),
        members: vec![GitPkgBuildMember::SimpleName(s("ok")), GitPkgBuildMember::SimpleName(s("fails"))],
    }));
    sources.push(PkgBuildGroup::Single(local(PkgBuildName::single(s("never")), "reached")));
    assert_eq!(
        normalize_sources(sources, &Outer::new()),
        Err(NormalizeError {
            group: 5,
            error: MemberError { member: 1, error: no_env(TemplateField::SubDir) },
        })
    );
}
