//! Names of pacman repositories.

use split_first_char::SplitFirstChar;
use vstd::prelude::*;
use vstd::string::StrSliceExecFns;

verus! {

/// Name of a pacman repository.
///
/// It is not empty, starts with an ASCII lowercase letter, and holds nothing
/// but ASCII lowercase letters, digits, `-` and `_`.
#[derive(Debug, PartialEq, Eq)]
pub struct RepoName(String);

/// Error on fail validation of a [`RepoName`].
#[derive(Debug, Clone, Copy, PartialEq, Eq, Structural)]
pub enum ValidateError {
    /// The name is empty.
    Empty,
    /// The first character, which this holds, is no ASCII lowercase letter.
    InvalidFirstChar(char),
    /// A character behind the first, which this holds, is not allowed in a name.
    InvalidChar(char),
}

/// Whether `c` may start a repository name.
pub open spec fn is_first_char(c: char) -> bool {
    'a' <= c <= 'z'
}

/// Whether `c` may stand in a repository name behind its first character.
pub open spec fn is_name_char(c: char) -> bool {
    'a' <= c <= 'z' || '0' <= c <= '9' || c == '-' || c == '_'
}

/// The index of the first character of `s` that may not stand in a
/// repository name, or `s.len()` where all may.
pub open spec fn first_invalid(s: Seq<char>) -> int
    decreases s.len(),
{
    if s.len() > 0 && is_name_char(s[0]) {
        1 + first_invalid(s.skip(1))
    } else {
        0
    }
}

/// What validating `name` as a repository name gives: the first violation,
/// read from the left, or `Ok`.
pub open spec fn validation(name: Seq<char>) -> Result<(), ValidateError> {
    let tail = name.skip(1);
    if name.len() == 0 {
        Err(ValidateError::Empty)
    } else if !is_first_char(name[0]) {
        Err(ValidateError::InvalidFirstChar(name[0]))
    } else if first_invalid(tail) < tail.len() {
        Err(ValidateError::InvalidChar(tail[first_invalid(tail)]))
    } else {
        Ok(())
    }
}

/// Whether `name` is a repository name.
pub open spec fn is_repo_name(name: Seq<char>) -> bool {
    &&& name.len() > 0
    &&& is_first_char(name[0])
    &&& forall|i: int| 1 <= i < name.len() ==> is_name_char(#[trigger] name[i])
}

/// `first_invalid` is the one place that holds an invalid character with none
/// before it.
pub proof fn lemma_first_invalid(s: Seq<char>, at: int)
    requires
        0 <= at <= s.len(),
        forall|j: int| 0 <= j < at ==> is_name_char(#[trigger] s[j]),
        at < s.len() ==> !is_name_char(s[at]),
    ensures
        first_invalid(s) == at,
    decreases s.len(),
{
    if at > 0 {
        assert(is_name_char(s[0]));
        let t = s.skip(1);
        assert forall|j: int| 0 <= j < at - 1 implies is_name_char(#[trigger] t[j]) by {
            assert(t[j] == s[j + 1]);
        }
        lemma_first_invalid(t, at - 1);
    }
}

/// `first_invalid` stays within `s`, and no invalid character stands before it.
pub proof fn lemma_first_invalid_bounds(s: Seq<char>)
    ensures
        0 <= first_invalid(s) <= s.len(),
        first_invalid(s) < s.len() ==> !is_name_char(s[first_invalid(s)]),
        forall|j: int| 0 <= j < first_invalid(s) ==> is_name_char(#[trigger] s[j]),
    decreases s.len(),
{
    if s.len() > 0 && is_name_char(s[0]) {
        let t = s.skip(1);
        lemma_first_invalid_bounds(t);
        assert forall|j: int| 0 <= j < first_invalid(s) implies is_name_char(#[trigger] s[j]) by {
            if j > 0 {
                assert(t[j - 1] == s[j]);
            }
        }
    }
}

/// Validation passes exactly the repository names.
pub proof fn lemma_validation_accepts_names(name: Seq<char>)
    ensures
        validation(name) is Ok <==> is_repo_name(name),
{
    let tail = name.skip(1);
    lemma_first_invalid_bounds(tail);
    if validation(name) is Ok {
        assert forall|i: int| 1 <= i < name.len() implies is_name_char(#[trigger] name[i]) by {
            assert(tail[i - 1] == name[i]);
        }
    }
    if is_repo_name(name) {
        if first_invalid(tail) < tail.len() {
            assert(tail[first_invalid(tail)] == name[first_invalid(tail) + 1]);
        }
    }
}

impl View for RepoName {
    type V = Seq<char>;

    closed spec fn view(&self) -> Seq<char> {
        self.0@
    }
}

/// `split_first_char` of the crate of that name, as a method of `&str`: `None`
/// for the empty string, else the first character and all that follows it.
#[verifier::external_body]
fn split_first(text: &str) -> (parts: Option<(char, &str)>)
    ensures
        match parts {
            Some((head, tail)) => text@.len() > 0 && head == text@[0] && tail@ == text@.skip(1),
            None => text@.len() == 0,
        },
{
    text.split_first_char()
}

impl RepoName {
    #[verifier::type_invariant]
    spec fn valid(&self) -> bool {
        is_repo_name(self.0@)
    }

    /// What converting a string gives: the name that holds it, or the string's
    /// first violation.
    pub closed spec fn converted(name: String) -> Result<Self, ValidateError> {
        match validation(name@) {
            Ok(()) => Ok(RepoName(name)),
            Err(error) => Err(error),
        }
    }

    /// Try converting a string into a name of a pacman repository.
    pub fn try_from_string(name: String) -> (result: Result<Self, ValidateError>)
        ensures
            match result {
                Ok(repo_name) => repo_name@ == name@ && is_repo_name(name@),
                Err(error) => validation(name@) == Err::<(), _>(error),
            },
            result == RepoName::converted(name),
    {
        match RepoName::validate(name.as_str()) {
            Ok(()) => {
                proof {
                    lemma_validation_accepts_names(name@);
                }
                Ok(RepoName(name))
            },
            Err(error) => Err(error),
        }
    }

    /// Whether the name is a valid name for a pacman repository.
    pub fn validate(name: &str) -> (result: Result<(), ValidateError>)
        ensures
            result == validation(name@),
    {
        let (head, tail) = match split_first(name) {
            Some(parts) => parts,
            None => return Err(ValidateError::Empty),
        };
        match RepoName::validate_first_char(head) {
            Ok(()) => {},
            Err(char) => return Err(ValidateError::InvalidFirstChar(char)),
        }
        let n: usize = tail.unicode_len();
        let mut i: usize = 0;
        while i < n
            invariant
                i <= n,
                n == tail@.len(),
                name@.len() > 0,
                is_first_char(name@[0]),
                tail@ == name@.skip(1),
                forall|j: int| 0 <= j < i ==> is_name_char(#[trigger] tail@[j]),
            decreases n - i,
        {
            match RepoName::validate_char(tail.get_char(i)) {
                Ok(()) => {},
                Err(char) => {
                    proof {
                        lemma_first_invalid(tail@, i as int);
                    }
                    return Err(ValidateError::InvalidChar(char));
                },
            }
            i += 1;
        }
        proof {
            lemma_first_invalid(tail@, n as int);
        }
        Ok(())
    }

    /// Whether the character is valid as the first character of a pacman repository name.
    pub fn validate_first_char(char: char) -> (result: Result<(), char>)
        ensures
            result == if is_first_char(char) {
                Ok::<(), char>(())
            } else {
                Err(char)
            },
    {
        if 'a' <= char && char <= 'z' {
            Ok(())
        } else {
            Err(char)
        }
    }

    /// Whether the character is valid as a character of a pacman repository name.
    pub fn validate_char(char: char) -> (result: Result<(), char>)
        ensures
            result == if is_name_char(char) {
                Ok::<(), char>(())
            } else {
                Err(char)
            },
    {
        if ('a' <= char && char <= 'z') || ('0' <= char && char <= '9') || char == '-' || char
            == '_' {
            Ok(())
        } else {
            Err(char)
        }
    }

    /// The name as a string slice.
    pub fn as_str(&self) -> (name: &str)
        ensures
            name@ == self@,
            is_repo_name(name@),
    {
        proof {
            use_type_invariant(self);
        }
        self.0.as_str()
    }

    /// The name as the string that it was made from.
    pub fn into_string(self) -> (name: String)
        ensures
            name@ == self@,
            is_repo_name(name@),
    {
        proof {
            use_type_invariant(&self);
        }
        self.0
    }
}

impl Clone for RepoName {
    fn clone(&self) -> (copy: Self)
        ensures
            copy@ == self@,
    {
        proof {
            use_type_invariant(self);
        }
        RepoName(self.0.clone())
    }
}

impl TryFrom<String> for RepoName {
    type Error = ValidateError;

    fn try_from(value: String) -> (result: Result<Self, ValidateError>) {
        RepoName::try_from_string(value)
    }
}

impl vstd::std_specs::convert::TryFromSpecImpl<String> for RepoName {
    open spec fn obeys_try_from_spec() -> bool {
        true
    }

    open spec fn try_from_spec(value: String) -> Result<Self, ValidateError> {
        RepoName::converted(value)
    }
}

} // verus!
