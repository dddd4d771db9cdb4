//! RDF terms and triples as plain values.

use vstd::prelude::*;
use vstd::string::StringExecFns;
use sophia::api::term::BnodeId;
use sophia::iri::IriRef;

verus! {

/// Whether `IriRef::new` of `sophia_iri` takes `text` as an IRI reference.
pub uninterp spec fn iri_ref_accepted(text: Seq<char>) -> bool;

/// Whether `BnodeId::new` of `sophia_api` takes `text` as a blank node label.
pub uninterp spec fn bnode_label_accepted(text: Seq<char>) -> bool;

/// Asks `sophia_iri::IriRef::new` whether `text` is an IRI reference
/// (absolute or relative). The answer is a function of the text alone.
#[verifier::external_body]
fn check_iri_ref(text: &str) -> (ok: bool)
    ensures
        ok == iri_ref_accepted(text@),
{
    IriRef::new(text).is_ok()
}

/// Asks `sophia_api::term::BnodeId::new` whether `text` follows Turtle's
/// rule for blank node labels. The answer is a function of the text alone.
#[verifier::external_body]
fn check_bnode_label(text: &str) -> (ok: bool)
    ensures
        ok == bnode_label_accepted(text@),
{
    BnodeId::new(text).is_ok()
}

/// The mathematical value of a [`Term`].
pub enum TermView {
    Iri(Seq<char>),
    BlankNode(Seq<char>),
    Literal { lexical: Seq<char>, datatype: Seq<char> },
}

impl TermView {
    /// A term that the store accepts: its IRI parts are IRI references and
    /// its label, if it is a blank node, is a Turtle blank node label.
    pub open spec fn well_formed(self) -> bool {
        match self {
            TermView::Iri(text) => iri_ref_accepted(text),
            TermView::BlankNode(label) => bnode_label_accepted(label),
            TermView::Literal { lexical, datatype } => iri_ref_accepted(datatype),
        }
    }

    /// IRIs and blank nodes name resources; literals do not.
    pub open spec fn is_resource(self) -> bool {
        self is Iri || self is BlankNode
    }
}

/// An RDF term: an IRI, a blank node, or a literal with its datatype.
#[derive(Debug, PartialEq, Eq, Hash)]
pub enum Term {
    Iri(String),
    BlankNode(String),
    Literal { lexical: String, datatype: String },
}

impl View for Term {
    type V = TermView;

    open spec fn view(&self) -> TermView {
        match self {
            Term::Iri(text) => TermView::Iri(text@),
            Term::BlankNode(label) => TermView::BlankNode(label@),
            Term::Literal { lexical, datatype } => TermView::Literal {
                lexical: lexical@,
                datatype: datatype@,
            },
        }
    }
}

impl Clone for Term {
    fn clone(&self) -> (res: Term)
        ensures
            res@ == self@,
    {
        match self {
            Term::Iri(text) => Term::Iri(text.clone()),
            Term::BlankNode(label) => Term::BlankNode(label.clone()),
            Term::Literal { lexical, datatype } => Term::Literal {
                lexical: lexical.clone(),
                datatype: datatype.clone(),
            },
        }
    }
}

impl Term {
    /// The IRI with the given text.
    pub fn iri(text: &str) -> (res: Term)
        ensures
            res@ == TermView::Iri(text@),
    {
        Term::Iri(String::from_str(text))
    }

    /// The blank node with the given label.
    pub fn blank_node(label: &str) -> (res: Term)
        ensures
            res@ == TermView::BlankNode(label@),
    {
        Term::BlankNode(String::from_str(label))
    }

    /// The literal with the given lexical form and datatype IRI.
    pub fn literal(lexical: &str, datatype: &str) -> (res: Term)
        ensures
            res@ == (TermView::Literal { lexical: lexical@, datatype: datatype@ }),
    {
        Term::Literal { lexical: String::from_str(lexical), datatype: String::from_str(datatype) }
    }

    /// Whether two terms are the same term.
    pub fn same(&self, other: &Term) -> (res: bool)
        ensures
            res == (self@ == other@),
    {
        match self {
            Term::Iri(a) => match other {
                Term::Iri(b) => *a == *b,
                _ => false,
            },
            Term::BlankNode(a) => match other {
                Term::BlankNode(b) => *a == *b,
                _ => false,
            },
            Term::Literal { lexical: al, datatype: ad } => match other {
                Term::Literal { lexical: bl, datatype: bd } => *al == *bl && *ad == *bd,
                _ => false,
            },
        }
    }

    pub fn is_iri(&self) -> (res: bool)
        ensures
            res == (self@ is Iri),
    {
        match self {
            Term::Iri(_) => true,
            _ => false,
        }
    }

    pub fn is_blank_node(&self) -> (res: bool)
        ensures
            res == (self@ is BlankNode),
    {
        match self {
            Term::BlankNode(_) => true,
            _ => false,
        }
    }

    pub fn is_literal(&self) -> (res: bool)
        ensures
            res == (self@ is Literal),
    {
        match self {
            Term::Literal { .. } => true,
            _ => false,
        }
    }

    /// Whether the store accepts this term.
    pub fn is_well_formed(&self) -> (res: bool)
        ensures
            res == self@.well_formed(),
    {
        match self {
            Term::Iri(text) => check_iri_ref(text.as_str()),
            Term::BlankNode(label) => check_bnode_label(label.as_str()),
            Term::Literal { lexical, datatype } => check_iri_ref(datatype.as_str()),
        }
    }
}

/// The mathematical value of a [`Triple`].
pub struct TripleView {
    pub subject: TermView,
    pub predicate: TermView,
    pub object: TermView,
}

impl TripleView {
    /// All three terms are acceptable to the store.
    pub open spec fn well_formed(self) -> bool {
        self.subject.well_formed() && self.predicate.well_formed() && self.object.well_formed()
    }
}

/// One statement: subject, predicate, object.
#[derive(Debug, PartialEq, Eq, Hash)]
pub struct Triple {
    pub subject: Term,
    pub predicate: Term,
    pub object: Term,
}

impl View for Triple {
    type V = TripleView;

    open spec fn view(&self) -> TripleView {
        TripleView { subject: self.subject@, predicate: self.predicate@, object: self.object@ }
    }
}

impl Clone for Triple {
    fn clone(&self) -> (res: Triple)
        ensures
            res@ == self@,
    {
        Triple {
            subject: self.subject.clone(),
            predicate: self.predicate.clone(),
            object: self.object.clone(),
        }
    }
}

impl Triple {
    pub fn new(subject: Term, predicate: Term, object: Term) -> (res: Triple)
        ensures
            res.subject == subject,
            res.predicate == predicate,
            res.object == object,
    {
        Triple { subject, predicate, object }
    }

    /// Whether two triples are the same statement.
    pub fn same(&self, other: &Triple) -> (res: bool)
        ensures
            res == (self@ == other@),
    {
        self.subject.same(&other.subject) && self.predicate.same(&other.predicate)
            && self.object.same(&other.object)
    }

    /// Whether the store accepts all three terms.
    pub fn is_well_formed(&self) -> (res: bool)
        ensures
            res == self@.well_formed(),
    {
        self.subject.is_well_formed() && self.predicate.is_well_formed()
            && self.object.is_well_formed()
    }
}

/// The values of a sequence of triples, in order.
pub open spec fn triple_views(triples: Seq<Triple>) -> Seq<TripleView> {
    triples.map_values(|t: Triple| t@)
}

} // verus!
