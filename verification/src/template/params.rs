//! Template parameters: what a placeholder may ask for, and who answers.

use crate::text::{first_index, same_text, split_once, trim, trim_start, trimmed, trimmed_start};
use vstd::prelude::*;

verus! {

/// This trait carries the common types used by all other query traits.
pub trait QueryCommon {
    /// Value to return by every query.
    type Value;
}

/// Query information from a PKGBUILD entry.
pub trait QueryPkgbuild: QueryCommon {
    /// The `base` value of the PKGBUILD entry that this source stands for.
    ///
    /// A source states here what its base is. Where it does not, the base is
    /// left open: some value, the same at every call.
    open spec fn base_value(&self) -> Self::Value {
        arbitrary()
    }

    /// Query the `base` value in the manifest corresponding to the PKGBUILD entry.
    fn base(&self) -> (value: Self::Value)
        ensures
            value == self.base_value(),
    ;
}

/// Query the environment variables.
///
/// What a lookup answers is up to the environment, so `env` promises nothing.
pub trait QueryEnv: QueryCommon {
    /// Name of the environment variable.
    type Name;

    /// Error when the query fails.
    type Error;

    /// Query the environment variable.
    fn env(&self, name: Self::Name) -> Result<Option<Self::Value>, Self::Error>;
}

/// Run a command and get its stdout as [value](QueryCommon::Value).
///
/// What a command prints is up to the command, so `run` promises nothing.
pub trait QueryCmd: QueryCommon {
    /// Command to run.
    type Command;

    /// Error when the command fails.
    type Error;

    /// Run a command to get its stdout.
    fn run(&self, command: Self::Command) -> Result<Self::Value, Self::Error>;
}

/// Query to pass into [`QueryTemplateParam::query`].
#[derive(Debug, Clone, Copy, PartialEq, Eq)]
#[non_exhaustive]
pub enum TemplateParamQuery<EnvName, Command> {
    /// Query the base name that corresponds to the concerning PKGBUILD.
    PkgbuildBase,
    /// Query an environment variable.
    GetEnv(EnvName),
    /// Run a command and get its stdout.
    RunCommand(Command),
}

impl<EnvName: View, Command: View> View for TemplateParamQuery<EnvName, Command> {
    type V = TemplateParamQuery<EnvName::V, Command::V>;

    open spec fn view(&self) -> Self::V {
        match *self {
            TemplateParamQuery::PkgbuildBase => TemplateParamQuery::PkgbuildBase,
            TemplateParamQuery::GetEnv(name) => TemplateParamQuery::GetEnv(name@),
            TemplateParamQuery::RunCommand(command) => TemplateParamQuery::RunCommand(command@),
        }
    }
}

/// Error when parsing [`TemplateParamQuery`] fails.
#[derive(Debug, Clone, PartialEq, Eq)]
pub enum ParseTemplateParamQueryError<'a> {
    /// The query is not `base` and holds no colon.
    MissingColon,
    /// What stands before the colon is neither `env` nor `cmd`.
    UnknownScheme(&'a str),
}

/// What a [`ParseTemplateParamQueryError`] says, as plain text.
pub enum ParseTemplateParamQueryErrorView {
    MissingColon,
    UnknownScheme(Seq<char>),
}

impl View for ParseTemplateParamQueryError<'_> {
    type V = ParseTemplateParamQueryErrorView;

    open spec fn view(&self) -> ParseTemplateParamQueryErrorView {
        match *self {
            ParseTemplateParamQueryError::MissingColon => {
                ParseTemplateParamQueryErrorView::MissingColon
            },
            ParseTemplateParamQueryError::UnknownScheme(scheme) => {
                ParseTemplateParamQueryErrorView::UnknownScheme(scheme@)
            },
        }
    }
}

/// The query that a raw text denotes.
///
/// Whitespace around the whole text is dropped. The text `base` asks for the
/// base. Any other text is cut at its first colon into a scheme and a suffix;
/// whitespace in front of the suffix is dropped, whitespace behind it is kept.
/// The schemes are `env` and `cmd`, written exactly so.
pub open spec fn parse_query(raw: Seq<char>) -> Result<
    TemplateParamQuery<Seq<char>, Seq<char>>,
    ParseTemplateParamQueryErrorView,
> {
    let text = trimmed(raw);
    let colon = first_index(text, ':');
    let scheme = text.take(colon);
    let suffix = trimmed_start(text.skip(colon + 1));
    if text == "base"@ {
        Ok(TemplateParamQuery::PkgbuildBase)
    } else if !text.contains(':') {
        Err(ParseTemplateParamQueryErrorView::MissingColon)
    } else if scheme == "env"@ {
        Ok(TemplateParamQuery::GetEnv(suffix))
    } else if scheme == "cmd"@ {
        Ok(TemplateParamQuery::RunCommand(suffix))
    } else {
        Err(ParseTemplateParamQueryErrorView::UnknownScheme(scheme))
    }
}

impl<'a> TemplateParamQuery<&'a str, &'a str> {
    /// Parse a raw query string.
    pub fn parse(raw_query: &'a str) -> (result: Result<Self, ParseTemplateParamQueryError<'a>>)
        ensures
            match (result, parse_query(raw_query@)) {
                (Ok(query), Ok(expected)) => query@ == expected,
                (Err(error), Err(expected)) => error@ == expected,
                _ => false,
            },
    {
        let raw_query = trim(raw_query);
        if same_text(raw_query, "base") {
            return Ok(TemplateParamQuery::PkgbuildBase);
        }
        let (scheme, suffix) = match split_once(raw_query, ':') {
            Some(parts) => parts,
            None => return Err(ParseTemplateParamQueryError::MissingColon),
        };
        let suffix = trim_start(suffix);
        if same_text(scheme, "env") {
            Ok(TemplateParamQuery::GetEnv(suffix))
        } else if same_text(scheme, "cmd") {
            Ok(TemplateParamQuery::RunCommand(suffix))
        } else {
            Err(ParseTemplateParamQueryError::UnknownScheme(scheme))
        }
    }

    /// The same query with its name or command in a string of its own, as a
    /// source takes it.
    pub fn into_owned(self) -> (owned: TemplateParamQuery<String, String>)
        ensures
            owned@ == self@,
    {
        match self {
            TemplateParamQuery::PkgbuildBase => TemplateParamQuery::PkgbuildBase,
            TemplateParamQuery::GetEnv(name) => TemplateParamQuery::GetEnv(name.to_owned()),
            TemplateParamQuery::RunCommand(command) => TemplateParamQuery::RunCommand(
                command.to_owned(),
            ),
        }
    }
}

impl<'a> TryFrom<&'a str> for TemplateParamQuery<&'a str, &'a str> {
    type Error = ParseTemplateParamQueryError<'a>;

    fn try_from(raw_query: &'a str) -> (result: Result<Self, ParseTemplateParamQueryError<'a>>)
        ensures
            match (result, parse_query(raw_query@)) {
                (Ok(query), Ok(expected)) => query@ == expected,
                (Err(error), Err(expected)) => error@ == expected,
                _ => false,
            },
    {
        TemplateParamQuery::parse(raw_query)
    }
}

/// A parsed query borrows its name or command from the raw text, and no
/// function of specifications can hand out such a slice: what `try_from`
/// gives is stated by its own contract.
impl<'a> vstd::std_specs::convert::TryFromSpecImpl<&'a str> for TemplateParamQuery<&'a str, &'a str> {
    open spec fn obeys_try_from_spec() -> bool {
        false
    }

    open spec fn try_from_spec(raw_query: &'a str) -> Result<
        Self,
        ParseTemplateParamQueryError<'a>,
    > {
        arbitrary()
    }
}

/// Error type of [`QueryTemplateParam::query`] fails.
#[derive(Debug, Clone, PartialEq, Eq)]
pub enum QueryTemplateParamError<EnvError, CommandError> {
    /// No env with the given name.
    NoEnv,
    /// Failed to query an environment variable.
    Env(EnvError),
    /// Failed to run a command.
    Command(CommandError),
}

impl<EnvError, CommandError> QueryTemplateParamError<EnvError, CommandError> {
    /// What a query for an environment variable yields, given what the lookup
    /// answered: the value, `NoEnv` where the variable is absent, and the
    /// lookup's own error as `Env`.
    pub fn env_outcome<Value>(found: Result<Option<Value>, EnvError>) -> (result: Result<Value, Self>)
        ensures
            result == match found {
                Ok(Some(value)) => Ok::<Value, Self>(value),
                Ok(None) => Err(QueryTemplateParamError::NoEnv),
                Err(error) => Err(QueryTemplateParamError::Env(error)),
            },
    {
        match found {
            Ok(Some(value)) => Ok(value),
            Ok(None) => Err(QueryTemplateParamError::NoEnv),
            Err(error) => Err(QueryTemplateParamError::Env(error)),
        }
    }

    /// What a query that runs a command yields, given how the run ended: its
    /// output, or its error as `Command`.
    pub fn command_outcome<Value>(ran: Result<Value, CommandError>) -> (result: Result<Value, Self>)
        ensures
            result == match ran {
                Ok(value) => Ok::<Value, Self>(value),
                Err(error) => Err(QueryTemplateParamError::Command(error)),
            },
    {
        match ran {
            Ok(value) => Ok(value),
            Err(error) => Err(QueryTemplateParamError::Command(error)),
        }
    }
}

/// Run query for a template parameter.
pub trait QueryTemplateParam: QueryPkgbuild + QueryEnv + QueryCmd {
    /// Query a value for a template parameter.
    ///
    /// The base is always had. A variable is looked up in the environment and
    /// a command is run; each can only fail in its own way.
    fn query(
        &self,
        query: TemplateParamQuery<<Self as QueryEnv>::Name, <Self as QueryCmd>::Command>,
    ) -> (result: Result<
        <Self as QueryCommon>::Value,
        QueryTemplateParamError<<Self as QueryEnv>::Error, <Self as QueryCmd>::Error>,
    >)
        ensures
            query is PkgbuildBase ==> (result matches Ok(value) && value == self.base_value()),
            query is GetEnv ==> !(result matches Err(QueryTemplateParamError::Command(_))),
            query is RunCommand ==> (result is Ok || result matches Err(
                QueryTemplateParamError::Command(_),
            )),
    {
        match query {
            TemplateParamQuery::PkgbuildBase => Ok(self.base()),
            TemplateParamQuery::GetEnv(name) => QueryTemplateParamError::env_outcome(
                self.env(name),
            ),
            TemplateParamQuery::RunCommand(command) => QueryTemplateParamError::command_outcome(
                self.run(command),
            ),
        }
    }
}

impl<Params: QueryPkgbuild + QueryEnv + QueryCmd> QueryTemplateParam for Params {

}

} // verus!
