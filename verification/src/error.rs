//! Why a definition cannot become an argument of the kind asked for.

use vstd::prelude::*;
use vstd::string::StringExecFns;

verus! {

/// A definition that contradicts the kind of argument it is meant to become.
#[derive(Debug, Clone, Copy, PartialEq, Eq)]
pub enum BuildError<'a> {
    /// A flag is marked as required, although a flag only says that it is
    /// there.
    RequiredFlag { name: &'a str },
    /// A positional argument declares both a short and a long form, although
    /// it is found by its position.
    SwitchedPositional { name: &'a str },
}

impl<'a> BuildError<'a> {
    /// The name of the offending argument.
    pub open spec fn argument(self) -> Seq<char> {
        match self {
            BuildError::RequiredFlag { name } => name@,
            BuildError::SwitchedPositional { name } => name@,
        }
    }

    /// The text of [`BuildError::message`].
    pub open spec fn message_text(self) -> Seq<char> {
        match self {
            BuildError::RequiredFlag { name } => "The argument '"@ + name@
                + "' cannot be required because it's a flag, perhaps you forgot takes_value(true)?"@,
            BuildError::SwitchedPositional { name } => "Argument \""@ + name@
                + "\" has conflicting requirements, both index() and short(), or long(), were supplied"@,
        }
    }

    /// The name of the offending argument.
    pub fn name(&self) -> (name: &'a str)
        ensures
            name@ == self.argument(),
    {
        match self {
            BuildError::RequiredFlag { name } => *name,
            BuildError::SwitchedPositional { name } => *name,
        }
    }

    /// What is wrong, in words that name the offending argument.
    pub fn message(&self) -> (text: String)
        ensures
            text@ == self.message_text(),
    {
        match self {
            BuildError::RequiredFlag { name } => {
                let mut text = String::from_str("The argument '");
                text.append(name);
                text.append(
                    "' cannot be required because it's a flag, perhaps you forgot takes_value(true)?",
                );
                text
            },
            BuildError::SwitchedPositional { name } => {
                let mut text = String::from_str("Argument \"");
                text.append(name);
                text.append(
                    "\" has conflicting requirements, both index() and short(), or long(), were supplied",
                );
                text
            },
        }
    }
}

} // verus!
