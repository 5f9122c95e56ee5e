use pkgbuild_manifest::pkgbuild_name::{PkgBuildName, PkgBuildSingleName, PkgBuildSplitName};

#[test]
fn single_holds_the_name() {
    let name = PkgBuildName::single("foo".to_string());
    assert_eq!(name, PkgBuildName::Single(PkgBuildSingleName { name: "foo".to_string() }));
    assert_eq!(name.base(), "foo");
}

#[test]
fn split_holds_base_and_names_in_order() {
    let name = PkgBuildName::split("gcc".to_string(), vec!["gcc".to_string(), "gcc-libs".to_string()]);
    assert_eq!(
        name,
        PkgBuildName::Split(PkgBuildSplitName {
            base: "gcc".to_string(),
            names: vec!["gcc".to_string(), "gcc-libs".to_string()],
        })
    );
    assert_eq!(name.base(), "gcc");
}

#[test]
fn base_of_split_is_not_one_of_its_names() {
    let name = PkgBuildName::split("base".to_string(), vec!["one".to_string(), "two".to_string()]);
    assert_eq!(name.base(), "base");
}

#[test]
fn names_are_not_validated() {
    let name = PkgBuildName::single("Any Thing/at all".to_string());
    assert_eq!(name.base(), "Any Thing/at all");
}
