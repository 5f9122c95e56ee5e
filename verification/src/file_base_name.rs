//! Base names of files: names that are no paths.

use crate::text::{same_text, split_once};
use vstd::prelude::*;

verus! {

/// Base name of a path to be used in a configuration file.
///
/// Read as a path it has one component, itself.
#[derive(Debug, PartialEq, Eq)]
pub struct FileBaseName(String);

/// Error on fail validation of a [`FileBaseName`].
#[derive(Debug, Clone, Copy, PartialEq, Eq, Structural)]
pub enum ValidateError {
    /// The name is empty, is `.` or `..`, or holds the separator `/`.
    NotAName,
}

/// Whether `name`, read as a path, is the file name of itself: it is not
/// empty, it holds no separator `/`, and it is neither `.` nor `..`.
pub open spec fn is_base_name(name: Seq<char>) -> bool {
    &&& name.len() > 0
    &&& !name.contains('/')
    &&& name != "."@
    &&& name != ".."@
}

impl View for FileBaseName {
    type V = Seq<char>;

    closed spec fn view(&self) -> Seq<char> {
        self.0@
    }
}

impl FileBaseName {
    #[verifier::type_invariant]
    spec fn valid(&self) -> bool {
        is_base_name(self.0@)
    }

    /// What converting a string gives: the base name that holds it, where it
    /// is one.
    pub closed spec fn converted(name: String) -> Result<Self, ValidateError> {
        if is_base_name(name@) {
            Ok(FileBaseName(name))
        } else {
            Err(ValidateError::NotAName)
        }
    }

    /// Try converting a string into a base name.
    pub fn try_from_string(name: String) -> (result: Result<Self, ValidateError>)
        ensures
            match result {
                Ok(base_name) => base_name@ == name@ && is_base_name(name@),
                Err(_) => !is_base_name(name@),
            },
            result == FileBaseName::converted(name),
    {
        match FileBaseName::validate(name.as_str()) {
            Ok(()) => Ok(FileBaseName(name)),
            Err(error) => Err(error),
        }
    }

    /// Validate whether a name really is a base name.
    pub fn validate(name: &str) -> (result: Result<(), ValidateError>)
        ensures
            result is Ok <==> is_base_name(name@),
    {
        if name.is_empty() || same_text(name, ".") || same_text(name, "..") {
            return Err(ValidateError::NotAName);
        }
        match split_once(name, '/') {
            Some(_) => Err(ValidateError::NotAName),
            None => Ok(()),
        }
    }

    /// The name as a string slice.
    pub fn as_str(&self) -> (name: &str)
        ensures
            name@ == self@,
            is_base_name(name@),
    {
        proof {
            use_type_invariant(self);
        }
        self.0.as_str()
    }

    /// The name as the string that it was made from.
    pub fn into_string(self) -> (name: String)
        ensures
            name@ == self@,
            is_base_name(name@),
    {
        proof {
            use_type_invariant(&self);
        }
        self.0
    }
}

impl Clone for FileBaseName {
    fn clone(&self) -> (copy: Self)
        ensures
            copy@ == self@,
    {
        proof {
            use_type_invariant(self);
        }
        FileBaseName(self.0.clone())
    }
}

impl TryFrom<String> for FileBaseName {
    type Error = ValidateError;

    fn try_from(value: String) -> (result: Result<Self, ValidateError>) {
        FileBaseName::try_from_string(value)
    }
}

impl vstd::std_specs::convert::TryFromSpecImpl<String> for FileBaseName {
    open spec fn obeys_try_from_spec() -> bool {
        true
    }

    open spec fn try_from_spec(value: String) -> Result<Self, ValidateError> {
        FileBaseName::converted(value)
    }
}

} // verus!
