//! The failures that graph operations report.

use vstd::prelude::*;

verus! {

/// Why a graph operation failed.
#[derive(Clone, Copy, Debug, PartialEq, Eq, Structural)]
pub enum GraphError {
    /// A term is not acceptable to the store: an IRI or a datatype that is
    /// no IRI reference, or a blank node label outside the Turtle grammar.
    InvalidTerm,
    /// The store cannot take another term.
    StoreFull,
    /// A term of a kind other than IRI, blank node or literal was met, or a
    /// literal stands in subject position.
    UnsupportedTerm,
    /// More than one root entity is present, so a content link has no
    /// single place to go.
    IdentityAmbiguity,
    /// The serializer gave up.
    Serialization,
    /// An entity has more blank nodes than there are labels for them.
    LabelShortage,
}

impl GraphError {
    /// A sentence for the person reading the failure.
    pub fn message(&self) -> (text: &'static str)
        ensures
            text@ == self.message_text(),
    {
        match self {
            GraphError::InvalidTerm => "A term is not acceptable to the triple store",
            GraphError::StoreFull => "The triple store cannot contain more terms",
            GraphError::UnsupportedTerm => "Subject must be either an IRI or a BlankNode",
            GraphError::IdentityAmbiguity => "Multiple triples found for contentURL insertion",
            GraphError::Serialization => "Failed to serialize graph",
            GraphError::LabelShortage => "Not enough labels for the blank nodes of an entity",
        }
    }

    /// The text of [`GraphError::message`].
    pub open spec fn message_text(&self) -> Seq<char> {
        match self {
            GraphError::InvalidTerm => "A term is not acceptable to the triple store"@,
            GraphError::StoreFull => "The triple store cannot contain more terms"@,
            GraphError::UnsupportedTerm => "Subject must be either an IRI or a BlankNode"@,
            GraphError::IdentityAmbiguity => "Multiple triples found for contentURL insertion"@,
            GraphError::Serialization => "Failed to serialize graph"@,
            GraphError::LabelShortage => "Not enough labels for the blank nodes of an entity"@,
        }
    }
}

} // verus!
