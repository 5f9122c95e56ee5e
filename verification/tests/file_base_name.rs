use pkgbuild_manifest::file_base_name::{FileBaseName, ValidateError};

#[test]
fn plain_file_name_is_accepted() {
    assert_eq!(FileBaseName::validate("foo.txt"), Ok(()));
}

#[test]
fn path_with_separator_is_rejected() {
    assert_eq!(FileBaseName::validate("a/b"), Err(ValidateError::NotAName));
}

#[test]
fn parent_dir_is_rejected() {
    assert_eq!(FileBaseName::validate(".."), Err(ValidateError::NotAName));
}

#[test]
fn current_dir_and_empty_are_rejected() {
    assert_eq!(FileBaseName::validate("."), Err(ValidateError::NotAName));
    assert_eq!(FileBaseName::validate(""), Err(ValidateError::NotAName));
}

#[test]
fn separator_at_either_end_is_rejected() {
    assert_eq!(FileBaseName::validate("foo/"), Err(ValidateError::NotAName));
    assert_eq!(FileBaseName::validate("/foo"), Err(ValidateError::NotAName));
    assert_eq!(FileBaseName::validate("/"), Err(ValidateError::NotAName));
    assert_eq!(FileBaseName::validate("./foo"), Err(ValidateError::NotAName));
}

#[test]
fn names_made_of_dots_and_more_are_accepted() {
    assert_eq!(FileBaseName::validate("..."), Ok(()));
    assert_eq!(FileBaseName::validate(".hidden"), Ok(()));
    assert_eq!(FileBaseName::validate("..a"), Ok(()));
    assert_eq!(FileBaseName::validate("Dockerfile"), Ok(()));
    assert_eq!(FileBaseName::validate("with space"), Ok(()));
}

#[test]
fn agrees_with_the_file_name_of_the_path() {
    let names = [
        "", ".", "..", "...", "a", "a/b", "a/", "/a", "//", "a//b", "./a", "a/.", "a/..", ".a", "a.",
        "Containerfile", "x y", "ünï", "a\\b",
    ];
    for name in names {
        let by_path = std::path::Path::new(name).file_name() == Some(name.as_ref());
        assert_eq!(FileBaseName::validate(name).is_ok(), by_path, "{:?}", name);
    }
}

#[test]
fn base_name_from_string_keeps_the_text() {
    let name = FileBaseName::try_from_string("Containerfile".to_string()).unwrap();
    assert_eq!(name.as_str(), "Containerfile");
    assert_eq!(name.clone().into_string(), "Containerfile".to_string());
    assert_eq!(name, FileBaseName::try_from("Containerfile".to_string()).unwrap());
}

#[test]
fn base_name_from_string_rejects_paths() {
    assert_eq!(
        FileBaseName::try_from_string("dir/Containerfile".to_string()),
        Err(ValidateError::NotAName)
    );
    assert_eq!(FileBaseName::try_from("..".to_string()), Err(ValidateError::NotAName));
}
