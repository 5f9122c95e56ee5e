use pkgbuild_manifest::template::params::{
    ParseTemplateParamQueryError, QueryCmd, QueryCommon, QueryEnv, QueryPkgbuild,
    QueryTemplateParam, QueryTemplateParamError, TemplateParamQuery,
};

fn parse(raw: &str) -> Result<TemplateParamQuery<&str, &str>, ParseTemplateParamQueryError<'_>> {
    TemplateParamQuery::parse(raw)
}

#[test]
fn base_with_whitespace_around() {
    assert_eq!(parse(" base "), Ok(TemplateParamQuery::PkgbuildBase));
    assert_eq!(parse("base"), Ok(TemplateParamQuery::PkgbuildBase));
}

#[test]
fn env_with_name() {
    assert_eq!(parse("env:FOO"), Ok(TemplateParamQuery::GetEnv("FOO")));
}

#[test]
fn env_with_whitespace_after_colon() {
    assert_eq!(parse("env:  FOO"), Ok(TemplateParamQuery::GetEnv("FOO")));
}

#[test]
fn cmd_with_command() {
    assert_eq!(parse("cmd:echo hi"), Ok(TemplateParamQuery::RunCommand("echo hi")));
}

#[test]
fn cmd_keeps_whitespace_inside_the_command() {
    assert_eq!(parse("cmd: echo  hi\tthere"), Ok(TemplateParamQuery::RunCommand("echo  hi\tthere")));
    assert_eq!(parse("  cmd:\n printf '%s ' x  "), Ok(TemplateParamQuery::RunCommand("printf '%s ' x")));
}

#[test]
fn missing_colon() {
    assert_eq!(parse("nocolon"), Err(ParseTemplateParamQueryError::MissingColon));
    assert_eq!(parse(""), Err(ParseTemplateParamQueryError::MissingColon));
    assert_eq!(parse("   "), Err(ParseTemplateParamQueryError::MissingColon));
}

#[test]
fn unknown_scheme() {
    assert_eq!(parse("xyz:abc"), Err(ParseTemplateParamQueryError::UnknownScheme("xyz")));
}

#[test]
fn schemes_are_case_sensitive() {
    assert_eq!(parse("Base"), Err(ParseTemplateParamQueryError::MissingColon));
    assert_eq!(parse("ENV:FOO"), Err(ParseTemplateParamQueryError::UnknownScheme("ENV")));
    assert_eq!(parse("Cmd:ls"), Err(ParseTemplateParamQueryError::UnknownScheme("Cmd")));
}

#[test]
fn scheme_is_not_trimmed_before_the_colon() {
    assert_eq!(parse("env :FOO"), Err(ParseTemplateParamQueryError::UnknownScheme("env ")));
    assert_eq!(parse(":FOO"), Err(ParseTemplateParamQueryError::UnknownScheme("")));
    assert_eq!(parse("base:"), Err(ParseTemplateParamQueryError::UnknownScheme("base")));
}

#[test]
fn only_the_first_colon_splits() {
    assert_eq!(parse("env:A:B"), Ok(TemplateParamQuery::GetEnv("A:B")));
    assert_eq!(parse("cmd:echo a:b"), Ok(TemplateParamQuery::RunCommand("echo a:b")));
    assert_eq!(parse("a:env:b"), Err(ParseTemplateParamQueryError::UnknownScheme("a")));
}

#[test]
fn empty_suffix_is_passed_through() {
    assert_eq!(parse("env:"), Ok(TemplateParamQuery::GetEnv("")));
    assert_eq!(parse("cmd:   "), Ok(TemplateParamQuery::RunCommand("")));
}

#[test]
fn unicode_whitespace_is_trimmed() {
    assert_eq!(parse("\u{3000}base\u{a0}\n"), Ok(TemplateParamQuery::PkgbuildBase));
    assert_eq!(parse("\u{2003}env:\u{2028}\u{85}Ünï\u{1680}"), Ok(TemplateParamQuery::GetEnv("Ünï")));
    assert_eq!(parse("\u{200b}base"), Err(ParseTemplateParamQueryError::MissingColon));
}

#[test]
fn parse_agrees_with_trim_and_split_once() {
    let raws = [
        " base ", "env:FOO", "env:  FOO", "cmd:echo hi ", "nocolon", "xyz:abc", "", ":", "::", " : ",
        "env : x", "\tcmd:\t a b \t", "env:\u{a0}x\u{a0}", "\u{feff}base", "b\u{e9}:x", "cmd:a\u{3000}", "envx:y",
    ];
    for raw in raws {
        let trimmed = raw.trim();
        let expected = if trimmed == "base" {
            Ok(TemplateParamQuery::PkgbuildBase)
        } else {
            match trimmed.split_once(':') {
                None => Err(ParseTemplateParamQueryError::MissingColon),
                Some(("env", suffix)) => Ok(TemplateParamQuery::GetEnv(suffix.trim_start())),
                Some(("cmd", suffix)) => Ok(TemplateParamQuery::RunCommand(suffix.trim_start())),
                Some((scheme, _)) => Err(ParseTemplateParamQueryError::UnknownScheme(scheme)),
            }
        };
        assert_eq!(parse(raw), expected, "{:?}", raw);
    }
}

#[test]
fn owned_query_keeps_kind_and_text() {
    assert_eq!(parse("base").unwrap().into_owned(), TemplateParamQuery::PkgbuildBase);
    assert_eq!(
        parse("env: HOME").unwrap().into_owned(),
        TemplateParamQuery::GetEnv("HOME".to_string())
    );
    assert_eq!(
        parse("cmd:echo  hi").unwrap().into_owned(),
        TemplateParamQuery::RunCommand("echo  hi".to_string())
    );
}

#[test]
fn try_from_is_parse() {
    assert_eq!(TemplateParamQuery::try_from(" base "), Ok(TemplateParamQuery::PkgbuildBase));
    assert_eq!(TemplateParamQuery::try_from("env: X"), Ok(TemplateParamQuery::GetEnv("X")));
    assert_eq!(
        TemplateParamQuery::try_from("what"),
        Err(ParseTemplateParamQueryError::MissingColon)
    );
}

#[test]
fn env_outcome_of_each_lookup() {
    type Error = QueryTemplateParamError<&'static str, ()>;
    assert_eq!(Error::env_outcome(Ok(Some(7))), Ok(7));
    assert_eq!(Error::env_outcome::<i32>(Ok(None)), Err(QueryTemplateParamError::NoEnv));
    assert_eq!(Error::env_outcome::<i32>(Err("bad")), Err(QueryTemplateParamError::Env("bad")));
}

#[test]
fn command_outcome_of_each_run() {
    type Error = QueryTemplateParamError<(), i32>;
    assert_eq!(Error::command_outcome(Ok("out")), Ok("out"));
    assert_eq!(Error::command_outcome::<&str>(Err(2)), Err(QueryTemplateParamError::Command(2)));
}

struct Fixed {
    base: String,
}

impl QueryCommon for Fixed {
    type Value = String;
}

impl QueryPkgbuild for Fixed {
    fn base(&self) -> String {
        self.base.clone()
    }
}

impl QueryEnv for Fixed {
    type Name = &'static str;
    type Error = String;

    fn env(&self, name: &'static str) -> Result<Option<String>, String> {
        match name {
            "HOME" => Ok(Some("/home/user".to_string())),
            "BROKEN" => Err("not unicode".to_string()),
            _ => Ok(None),
        }
    }
}

impl QueryCmd for Fixed {
    type Command = Vec<&'static str>;
    type Error = i32;

    fn run(&self, command: Vec<&'static str>) -> Result<String, i32> {
        match command.split_first() {
            Some((&"echo", rest)) => Ok(rest.join(" ")),
            _ => Err(127),
        }
    }
}

#[test]
fn query_base_always_succeeds() {
    let source = Fixed { base: "foo".to_string() };
    assert_eq!(source.query(TemplateParamQuery::PkgbuildBase), Ok("foo".to_string()));
}

#[test]
fn query_env_present_absent_failing() {
    let source = Fixed { base: "foo".to_string() };
    assert_eq!(source.query(TemplateParamQuery::GetEnv("HOME")), Ok("/home/user".to_string()));
    assert_eq!(source.query(TemplateParamQuery::GetEnv("NOPE")), Err(QueryTemplateParamError::NoEnv));
    assert_eq!(
        source.query(TemplateParamQuery::GetEnv("BROKEN")),
        Err(QueryTemplateParamError::Env("not unicode".to_string()))
    );
}

#[test]
fn query_command_output_and_failure() {
    let source = Fixed { base: "foo".to_string() };
    assert_eq!(
        source.query(TemplateParamQuery::RunCommand(vec!["echo", "a", "b"])),
        Ok("a b".to_string())
    );
    assert_eq!(
        source.query(TemplateParamQuery::RunCommand(vec!["false"])),
        Err(QueryTemplateParamError::Command(127))
    );
}
