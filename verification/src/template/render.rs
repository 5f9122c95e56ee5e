//! Rendering: every placeholder of a template gives way to the value that a
//! parameter source answers to its query.

use crate::template::params::{
    parse_query, ParseTemplateParamQueryError, ParseTemplateParamQueryErrorView, QueryCmd,
    QueryCommon, QueryEnv, QueryPkgbuild, QueryTemplateParam, QueryTemplateParamError,
    TemplateParamQuery,
};
use crate::template::syntax::{
    first_double, lemma_template_without_placeholder, template_of, Template, TemplateView,
};
use vstd::prelude::*;
use vstd::string::StringExecFns;

verus! {

/// The text of a template from its start up to and with the value of its
/// `count`-th placeholder, where `values` holds a value for each placeholder.
pub open spec fn expand_prefix(t: TemplateView, values: Seq<Seq<char>>, count: nat) -> Seq<char>
    decreases count,
{
    if count == 0 {
        Seq::empty()
    } else {
        expand_prefix(t, values, (count - 1) as nat) + t.literals[count - 1] + values[count - 1]
    }
}

/// The text of a template in which each placeholder gave way to its value.
pub open spec fn expand(t: TemplateView, values: Seq<Seq<char>>) -> Seq<char> {
    expand_prefix(t, values, t.placeholders.len()) + t.literals[t.placeholders.len() as int]
}

/// Whether `query` is a placeholder that asks for the base.
pub open spec fn asks_base(query: Seq<char>) -> bool {
    parse_query(query) matches Ok(TemplateParamQuery::PkgbuildBase)
}

/// Whether `values` can be what a source with the given base answers to the
/// placeholders of `t`: one value for each placeholder, every query well
/// formed, and the base wherever the base is asked for. What stands for an
/// environment variable or for a command's output is left open.
pub open spec fn answers(t: TemplateView, base: Seq<char>, values: Seq<Seq<char>>) -> bool {
    &&& values.len() == t.placeholders.len()
    &&& forall|i: int|
        0 <= i < t.placeholders.len() ==> (#[trigger] parse_query(t.placeholders[i])) is Ok
    &&& forall|i: int|
        0 <= i < t.placeholders.len() && asks_base(t.placeholders[i]) ==> #[trigger] values[i]
            == base
}

/// Whether every placeholder of `t` asks for the base, so that neither the
/// environment nor a command has a say in the rendering.
pub open spec fn is_plain(t: TemplateView) -> bool {
    forall|i: int| 0 <= i < t.placeholders.len() ==> asks_base(#[trigger] t.placeholders[i])
}

/// The rendering of a plain template: the base stands for every placeholder.
pub open spec fn plain_rendering(t: TemplateView, base: Seq<char>) -> Seq<char> {
    expand(t, Seq::new(t.placeholders.len(), |i: int| base))
}

/// Whether `text` can be a rendering of `template` for a recipe with the
/// given base.
pub open spec fn is_rendering(template: Seq<char>, base: Seq<char>, text: Seq<char>) -> bool {
    template_of(template) matches Some(t) && exists|values: Seq<Seq<char>>|
        answers(t, base, values) && text == #[trigger] expand(t, values)
}

/// Whether rendering `template` depends on its text and the base alone: it is a
/// template, and each of its placeholders asks for the base.
pub open spec fn renders_plainly(template: Seq<char>) -> bool {
    template_of(template) matches Some(t) && is_plain(t)
}

/// Values that agree on the first `count` placeholders give the same text up
/// to there.
pub proof fn lemma_expand_prefix_agrees(
    t: TemplateView,
    a: Seq<Seq<char>>,
    b: Seq<Seq<char>>,
    count: nat,
)
    requires
        forall|i: int| 0 <= i < count ==> a[i] == b[i],
    ensures
        expand_prefix(t, a, count) == expand_prefix(t, b, count),
    decreases count,
{
    if count > 0 {
        lemma_expand_prefix_agrees(t, a, b, (count - 1) as nat);
    }
}

/// A plain template has one rendering only: the one with the base in every
/// placeholder.
pub proof fn lemma_plain_rendering(template: Seq<char>, base: Seq<char>, text: Seq<char>)
    requires
        renders_plainly(template),
    ensures
        is_rendering(template, base, text) <==> text == plain_rendering(
            template_of(template)->0,
            base,
        ),
{
    let t = template_of(template)->0;
    let all_base = Seq::new(t.placeholders.len(), |i: int| base);
    if is_rendering(template, base, text) {
        let values = choose|values: Seq<Seq<char>>|
            answers(t, base, values) && text == #[trigger] expand(t, values);
        lemma_expand_prefix_agrees(t, values, all_base, t.placeholders.len());
    }
    if text == plain_rendering(t, base) {
        assert(answers(t, base, all_base));
        assert(text == expand(t, all_base));
    }
}

/// A template without placeholders renders to itself, whatever the base.
pub proof fn lemma_literal_rendering(template: Seq<char>, base: Seq<char>, text: Seq<char>)
    requires
        first_double(template, '{') == template.len(),
    ensures
        renders_plainly(template),
        is_rendering(template, base, text) <==> text == template,
{
    lemma_template_without_placeholder(template);
    let t = template_of(template)->0;
    lemma_plain_rendering(template, base, text);
    assert(expand_prefix(t, Seq::new(0, |i: int| base), 0) == Seq::<char>::empty());
    assert(Seq::<char>::empty() + template =~= template);
}

/// Error when a single placeholder cannot be given its value.
#[derive(Debug, Clone, PartialEq, Eq)]
pub enum PlaceholderError<EnvError, CommandError> {
    /// The query is not `base` and holds no colon.
    MissingColon,
    /// The query's scheme, which this names, is neither `env` nor `cmd`.
    UnknownScheme(String),
    /// The query was well formed and the source failed to answer it.
    Query(QueryTemplateParamError<EnvError, CommandError>),
}

impl<EnvError, CommandError> PlaceholderError<EnvError, CommandError> {
    /// Whether this error is one in which the placeholder with the given query
    /// can end: the very error of parsing it, or a failure of the kind of
    /// source that the query asks.
    pub open spec fn explains(&self, query: Seq<char>) -> bool {
        match *self {
            PlaceholderError::MissingColon => parse_query(query)
                == Err::<TemplateParamQuery<Seq<char>, Seq<char>>, _>(
                ParseTemplateParamQueryErrorView::MissingColon,
            ),
            PlaceholderError::UnknownScheme(scheme) => parse_query(query)
                == Err::<TemplateParamQuery<Seq<char>, Seq<char>>, _>(
                ParseTemplateParamQueryErrorView::UnknownScheme(scheme@),
            ),
            PlaceholderError::Query(QueryTemplateParamError::Command(_)) => parse_query(
                query,
            ) matches Ok(TemplateParamQuery::RunCommand(_)),
            PlaceholderError::Query(_) => parse_query(query) matches Ok(
                TemplateParamQuery::GetEnv(_),
            ),
        }
    }

    /// The error for a query that could not be parsed.
    pub fn from_parse_error(error: ParseTemplateParamQueryError<'_>) -> (result: Self)
        ensures
            match error@ {
                ParseTemplateParamQueryErrorView::MissingColon => result is MissingColon,
                ParseTemplateParamQueryErrorView::UnknownScheme(scheme) => {
                    result matches PlaceholderError::UnknownScheme(owned) && owned@ == scheme
                },
            },
    {
        match error {
            ParseTemplateParamQueryError::MissingColon => PlaceholderError::MissingColon,
            ParseTemplateParamQueryError::UnknownScheme(scheme) => PlaceholderError::UnknownScheme(
                scheme.to_owned(),
            ),
        }
    }
}

/// Error when rendering a template fails.
#[derive(Debug, Clone, PartialEq, Eq)]
pub enum RenderError<EnvError, CommandError> {
    /// The text is no template: a `{{` is never closed.
    UnclosedPlaceholder,
    /// The placeholder at `index`, counted from 0, could not be given its value.
    Placeholder { index: usize, error: PlaceholderError<EnvError, CommandError> },
}

impl<EnvError, CommandError> RenderError<EnvError, CommandError> {
    /// Whether this error is one in which rendering the text `template` can
    /// end: the text is no template, or every placeholder before the one at
    /// `index` is well formed and that one's error is one of its own.
    pub open spec fn explains(&self, template: Seq<char>) -> bool {
        match *self {
            RenderError::UnclosedPlaceholder => template_of(template) is None,
            RenderError::Placeholder { index, error } => {
                &&& template_of(template) matches Some(t)
                &&& index < t.placeholders.len()
                &&& error.explains(t.placeholders[index as int])
                &&& forall|j: int|
                    0 <= j < index ==> (#[trigger] parse_query(t.placeholders[j])) is Ok
            },
        }
    }
}

/// The value of the placeholder with the given query.
///
/// The query is parsed and handed to the source. A query for the base always
/// succeeds, with the base of the source.
pub fn resolve<S>(query: &str, source: &S) -> (result: Result<
    String,
    PlaceholderError<<S as QueryEnv>::Error, <S as QueryCmd>::Error>,
>) where
    S: QueryTemplateParam + QueryCommon<Value = String> + QueryEnv<Name = String> + QueryCmd<
        Command = String,
    >,

    ensures
        match result {
            Ok(value) => parse_query(query@) is Ok && (asks_base(query@) ==> value
                == source.base_value()),
            Err(error) => error.explains(query@),
        },
        asks_base(query@) ==> result is Ok,
{
    let parsed = match TemplateParamQuery::parse(query) {
        Ok(parsed) => parsed,
        Err(error) => return Err(PlaceholderError::from_parse_error(error)),
    };
    match source.query(parsed.into_owned()) {
        Ok(value) => Ok(value),
        Err(error) => Err(PlaceholderError::Query(error)),
    }
}

impl<'a> Template<'a> {
    /// The text of the template with `values` in the place of the
    /// placeholders, the first value for the first placeholder and so on, or
    /// `None` where there is not one value for each placeholder.
    pub fn substitute(&self, values: &Vec<String>) -> (result: Option<String>)
        ensures
            match result {
                Some(text) => {
                    &&& values@.len() == self@.placeholders.len()
                    &&& text@ == expand(self@, values.deep_view())
                },
                None => values@.len() != self@.placeholders.len(),
            },
    {
        let count: usize = self.placeholder_count();
        if values.len() != count {
            return None;
        }
        let mut text: String = String::new();
        let mut index: usize = 0;
        while index < count
            invariant
                index <= count,
                count == self@.placeholders.len(),
                count == values@.len(),
                text@ == expand_prefix(self@, values.deep_view(), index as nat),
            decreases count - index,
        {
            text.append(self.literal(index));
            text.append(values[index].as_str());
            index += 1;
        }
        text.append(self.literal(count));
        Some(text)
    }

    /// Renders the template: each placeholder, from the first to the last, is
    /// resolved through `source`, and the first that fails ends the rendering.
    /// Only when every placeholder has its value is the text put together.
    pub fn render<S>(&self, source: &S) -> (result: Result<
        String,
        RenderError<<S as QueryEnv>::Error, <S as QueryCmd>::Error>,
    >) where
        S: QueryTemplateParam + QueryCommon<Value = String> + QueryEnv<Name = String> + QueryCmd<
            Command = String,
        >,

        ensures
            match result {
                Ok(text) => exists|values: Seq<Seq<char>>|
                    answers(self@, source.base_value()@, values) && text@ == #[trigger] expand(
                        self@,
                        values,
                    ),
                Err(RenderError::Placeholder { index, error }) => {
                    &&& index < self@.placeholders.len()
                    &&& error.explains(self@.placeholders[index as int])
                    &&& forall|j: int|
                        0 <= j < index ==> (#[trigger] parse_query(self@.placeholders[j])) is Ok
                },
                Err(RenderError::UnclosedPlaceholder) => false,
            },
            is_plain(self@) ==> result is Ok,
    {
        let count: usize = self.placeholder_count();
        let mut values: Vec<String> = Vec::new();
        while values.len() < count
            invariant
                values@.len() <= count,
                count == self@.placeholders.len(),
                forall|j: int|
                    0 <= j < values@.len() ==> (#[trigger] parse_query(self@.placeholders[j])) is Ok,
                forall|j: int|
                    0 <= j < values@.len() && asks_base(self@.placeholders[j])
                        ==> #[trigger] values.deep_view()[j] == source.base_value()@,
            decreases count - values@.len(),
        {
            let index: usize = values.len();
            let ghost before = values.deep_view();
            let value = match resolve(self.placeholder(index), source) {
                Ok(value) => value,
                Err(error) => return Err(RenderError::Placeholder { index, error }),
            };
            let ghost answer = value@;
            values.push(value);
            proof {
                assert(values.deep_view() =~= before.push(answer));
            }
        }
        let text = self.substitute(&values).unwrap();
        proof {
            assert(answers(self@, source.base_value()@, values.deep_view()));
        }
        Ok(text)
    }
}

/// Renders the text `template` through `source`.
///
/// Nothing is asked of the source unless the whole text is a template. Then
/// each placeholder, from the first to the last, is resolved, and the first
/// that fails ends the rendering: no part of a text is handed out.
pub fn render<S>(template: &str, source: &S) -> (result: Result<
    String,
    RenderError<<S as QueryEnv>::Error, <S as QueryCmd>::Error>,
>) where
    S: QueryTemplateParam + QueryCommon<Value = String> + QueryEnv<Name = String> + QueryCmd<
        Command = String,
    >,

    ensures
        match result {
            Ok(text) => is_rendering(template@, source.base_value()@, text@),
            Err(error) => error.explains(template@),
        },
        renders_plainly(template@) ==> result is Ok,
{
    match Template::parse(template) {
        Ok(parsed) => {
            let result = parsed.render(source);
            proof {
                if result is Ok {
                    let values = choose|values: Seq<Seq<char>>|
                        answers(parsed@, source.base_value()@, values) && result->Ok_0@
                            == #[trigger] expand(parsed@, values);
                    assert(result->Ok_0@ == expand(template_of(template@)->0, values));
                }
            }
            result
        },
        Err(_) => Err(RenderError::UnclosedPlaceholder),
    }
}

} // verus!
