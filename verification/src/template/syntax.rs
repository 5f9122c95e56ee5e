//! The shape of a template: literal text with placeholders between `{{` and `}}`.
//!
//! A placeholder opens at the first `{{` and closes at the first `}}` behind
//! it; what stands between the two is the placeholder's query. Everything else
//! is literal text, a lone `}}` included. There is no escaping.

use crate::template::parse::ParseTemplate;
use vstd::prelude::*;
use vstd::string::StrSliceExecFns;

verus! {

/// The index of the first place in `s` where `c` stands twice in a row, or
/// `s.len()` where there is none.
pub open spec fn first_double(s: Seq<char>, c: char) -> int
    decreases s.len(),
{
    if s.len() < 2 {
        s.len() as int
    } else if s[0] == c && s[1] == c {
        0
    } else {
        1 + first_double(s.skip(1), c)
    }
}

/// `first_double` is either the length of `s` or leaves room for the pair.
pub proof fn lemma_first_double_bounds(s: Seq<char>, c: char)
    ensures
        0 <= first_double(s, c) <= s.len(),
        first_double(s, c) < s.len() ==> {
            &&& first_double(s, c) + 2 <= s.len()
            &&& s[first_double(s, c)] == c
            &&& s[first_double(s, c) + 1] == c
        },
    decreases s.len(),
{
    if s.len() >= 2 && !(s[0] == c && s[1] == c) {
        let t = s.skip(1);
        lemma_first_double_bounds(t, c);
        if first_double(t, c) < t.len() {
            assert(t[first_double(t, c)] == s[first_double(s, c)]);
            assert(t[first_double(t, c) + 1] == s[first_double(s, c) + 1]);
        }
    }
}

/// A pair at `at` with no pair before it is the first pair.
pub proof fn lemma_first_double_at(s: Seq<char>, c: char, at: int)
    requires
        0 <= at,
        at + 2 <= s.len(),
        s[at] == c,
        s[at + 1] == c,
        forall|j: int| 0 <= j < at ==> !(s[j] == c && #[trigger] s[j + 1] == c),
    ensures
        first_double(s, c) == at,
    decreases s.len(),
{
    if at > 0 {
        let t = s.skip(1);
        assert(!(s[0] == c && s[0int + 1] == c));
        assert forall|j: int| 0 <= j < at - 1 implies !(t[j] == c && #[trigger] t[j + 1] == c) by {
            assert(t[j] == s[j + 1]);
            assert(t[j + 1] == s[(j + 1) + 1]);
        }
        lemma_first_double_at(t, c, at - 1);
    }
}

/// Where no pair stands anywhere, `first_double` is the length.
pub proof fn lemma_first_double_none(s: Seq<char>, c: char)
    requires
        forall|j: int| 0 <= j && j + 2 <= s.len() ==> !(s[j] == c && #[trigger] s[j + 1] == c),
    ensures
        first_double(s, c) == s.len(),
    decreases s.len(),
{
    if s.len() >= 2 {
        let t = s.skip(1);
        assert(!(s[0] == c && s[0int + 1] == c));
        assert forall|j: int| 0 <= j && j + 2 <= t.len() implies !(t[j] == c && #[trigger] t[j + 1]
            == c) by {
            assert(t[j] == s[j + 1]);
            assert(t[j + 1] == s[(j + 1) + 1]);
        }
        lemma_first_double_none(t, c);
    }
}

/// A template as plain text: the literal stretches, and between each two of
/// them the query of a placeholder.
pub struct TemplateView {
    /// The literal stretches, in order; one more than there are placeholders.
    pub literals: Seq<Seq<char>>,
    /// The query of each placeholder, in order, as written.
    pub placeholders: Seq<Seq<char>>,
}

impl TemplateView {
    /// Nothing in front of a template leaves the template as it is.
    pub proof fn lemma_join_nothing(rest: Option<TemplateView>)
        ensures
            TemplateView::join(Seq::empty(), Seq::empty(), rest) == rest,
    {
        if let Some(t) = rest {
            assert(Seq::<Seq<char>>::empty() + t.literals =~= t.literals);
            assert(Seq::<Seq<char>>::empty() + t.placeholders =~= t.placeholders);
        }
    }

    /// A literal stretch and a placeholder in front of the rest, and more in
    /// front of that, is the same as all of it in front of the rest.
    pub proof fn lemma_join_nested(
        literals: Seq<Seq<char>>,
        placeholders: Seq<Seq<char>>,
        literal: Seq<char>,
        placeholder: Seq<char>,
        rest: Option<TemplateView>,
    )
        ensures
            TemplateView::join(
                literals,
                placeholders,
                TemplateView::join(seq![literal], seq![placeholder], rest),
            ) == TemplateView::join(literals.push(literal), placeholders.push(placeholder), rest),
    {
        if let Some(t) = rest {
            assert(literals + (seq![literal] + t.literals) =~= literals.push(literal) + t.literals);
            assert(placeholders + (seq![placeholder] + t.placeholders) =~= placeholders.push(
                placeholder,
            ) + t.placeholders);
        }
    }

    /// The first stretches of a template followed by the rest of it.
    pub open spec fn join(
        literals: Seq<Seq<char>>,
        placeholders: Seq<Seq<char>>,
        rest: Option<TemplateView>,
    ) -> Option<TemplateView> {
        match rest {
            Some(rest) => Some(
                TemplateView {
                    literals: literals + rest.literals,
                    placeholders: placeholders + rest.placeholders,
                },
            ),
            None => None,
        }
    }
}

/// The template that a text denotes, or `None` where a `{{` is never closed.
pub open spec fn template_of(s: Seq<char>) -> Option<TemplateView>
    decreases s.len(),
{
    let open = first_double(s, '{');
    let body = s.skip(open + 2);
    let close = first_double(body, '}');
    if open >= s.len() {
        Some(TemplateView { literals: seq![s], placeholders: seq![] })
    } else if close >= body.len() {
        None
    } else {
        proof {
            lemma_first_double_bounds(s, '{');
            lemma_first_double_bounds(body, '}');
        }
        TemplateView::join(seq![s.take(open)], seq![body.take(close)], template_of(body.skip(close + 2)))
    }
}

/// A template always has one literal stretch more than it has placeholders.
pub proof fn lemma_template_shape(s: Seq<char>)
    ensures
        template_of(s) matches Some(t) ==> t.literals.len() == t.placeholders.len() + 1,
    decreases s.len(),
{
    let open = first_double(s, '{');
    let body = s.skip(open + 2);
    let close = first_double(body, '}');
    lemma_first_double_bounds(s, '{');
    lemma_first_double_bounds(body, '}');
    if open < s.len() && close < body.len() {
        lemma_template_shape(body.skip(close + 2));
    }
}

/// A text without `{{` is a template of one literal stretch: itself.
pub proof fn lemma_template_without_placeholder(s: Seq<char>)
    requires
        first_double(s, '{') == s.len(),
    ensures
        template_of(s) == Some(TemplateView { literals: seq![s], placeholders: seq![] }),
{
}

/// Error when a text is no template.
#[derive(Debug, Clone, Copy, PartialEq, Eq, Structural)]
pub enum TemplateSyntaxError {
    /// A placeholder was opened with `{{` and never closed with `}}`.
    UnclosedPlaceholder,
}

/// A parsed template, borrowing its parts from the text it was parsed from.
#[derive(Debug, PartialEq, Eq)]
pub struct Template<'a> {
    literals: Vec<&'a str>,
    placeholders: Vec<&'a str>,
}

impl<'a> View for Template<'a> {
    type V = TemplateView;

    closed spec fn view(&self) -> TemplateView {
        TemplateView {
            literals: self.literals.deep_view(),
            placeholders: self.placeholders.deep_view(),
        }
    }
}

impl<'a> Template<'a> {
    #[verifier::type_invariant]
    spec fn well_formed(&self) -> bool {
        self.literals.len() == self.placeholders.len() + 1
    }

    /// How many placeholders the template holds.
    pub fn placeholder_count(&self) -> (count: usize)
        ensures
            count == self@.placeholders.len(),
            self@.literals.len() == count + 1,
    {
        proof {
            use_type_invariant(self);
        }
        self.placeholders.len()
    }

    /// The query of the placeholder at `index`, as written.
    pub fn placeholder(&self, index: usize) -> (query: &'a str)
        requires
            index < self@.placeholders.len(),
        ensures
            query@ == self@.placeholders[index as int],
    {
        self.placeholders[index]
    }

    /// The literal stretch at `index`: the one in front of the placeholder at
    /// `index`, or the last one.
    pub fn literal(&self, index: usize) -> (text: &'a str)
        requires
            index <= self@.placeholders.len(),
        ensures
            self@.literals.len() == self@.placeholders.len() + 1,
            text@ == self@.literals[index as int],
    {
        proof {
            use_type_invariant(self);
        }
        self.literals[index]
    }

    /// Reads `text` as a template.
    pub fn parse(text: &'a str) -> (result: Result<Template<'a>, TemplateSyntaxError>)
        ensures
            match result {
                Ok(template) => template_of(text@) == Some(template@),
                Err(_) => template_of(text@) is None,
            },
    {
        let mut literals: Vec<&'a str> = Vec::new();
        let mut placeholders: Vec<&'a str> = Vec::new();
        let mut rest: &'a str = text;
        proof {
            TemplateView::lemma_join_nothing(template_of(text@));
            assert(literals.deep_view() =~= Seq::empty());
            assert(placeholders.deep_view() =~= Seq::empty());
        }
        loop
            invariant
                literals.len() == placeholders.len(),
                template_of(text@) == TemplateView::join(
                    literals.deep_view(),
                    placeholders.deep_view(),
                    template_of(rest@),
                ),
            decreases rest@.len(),
        {
            let ghost done_literals = literals.deep_view();
            let ghost done_placeholders = placeholders.deep_view();
            let n: usize = rest.unicode_len();
            let open: usize = find_double(rest, '{');
            if open >= n {
                literals.push(rest);
                proof {
                    assert(literals.deep_view() =~= done_literals + seq![rest@]);
                    assert(placeholders.deep_view() =~= done_placeholders + Seq::empty());
                }
                return Ok(Template { literals, placeholders });
            }
            proof {
                lemma_first_double_bounds(rest@, '{');
            }
            let body: &'a str = rest.substring_char(open + 2, n);
            let m: usize = body.unicode_len();
            let close: usize = find_double(body, '}');
            if close >= m {
                return Err(TemplateSyntaxError::UnclosedPlaceholder);
            }
            proof {
                lemma_first_double_bounds(body@, '}');
            }
            let literal: &'a str = rest.substring_char(0, open);
            let placeholder: &'a str = body.substring_char(0, close);
            let next: &'a str = body.substring_char(close + 2, m);
            literals.push(literal);
            placeholders.push(placeholder);
            proof {
                assert(literals.deep_view() =~= done_literals.push(literal@));
                assert(placeholders.deep_view() =~= done_placeholders.push(placeholder@));
                TemplateView::lemma_join_nested(
                    done_literals,
                    done_placeholders,
                    literal@,
                    placeholder@,
                    template_of(next@),
                );
            }
            rest = next;
        }
    }
}

/// The index of the first place in `s` where `c` stands twice in a row, or the
/// length of `s` where there is none.
fn find_double(s: &str, c: char) -> (at: usize)
    ensures
        at == first_double(s@, c),
{
    let n: usize = s.unicode_len();
    let mut i: usize = 0;
    while i < n && n - i >= 2
        invariant
            i <= n,
            n == s@.len(),
            forall|j: int| 0 <= j < i ==> !(s@[j] == c && #[trigger] s@[j + 1] == c),
        decreases n - i,
    {
        if s.get_char(i) == c && s.get_char(i + 1) == c {
            proof {
                lemma_first_double_at(s@, c, i as int);
            }
            return i;
        }
        i += 1;
    }
    proof {
        lemma_first_double_none(s@, c);
    }
    n
}

impl ParseTemplate for str {
    type Template<'a> = Template<'a>;

    type Error = TemplateSyntaxError;

    fn parse_template(&self) -> (result: Result<Template<'_>, TemplateSyntaxError>)
        ensures
            match result {
                Ok(template) => template_of(self@) == Some(template@),
                Err(_) => template_of(self@) is None,
            },
    {
        Template::parse(self)
    }
}

} // verus!
