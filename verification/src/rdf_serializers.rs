//! Turtle and JSON-LD text of a store.

use vstd::prelude::*;
use vstd::string::StringSliceAdditionalSpecFns;
use crate::error::GraphError;
use crate::store::TripleStore;
use crate::store::store_plain;
use crate::store::turtle_text;
use crate::term::Term;
use crate::term::Triple;
use crate::term::TermView;
use crate::term::TripleView;
use crate::term::triple_views;
use crate::vocab::prefix_pairs;
use crate::vocab::rdf;
use crate::vocab::rdf_iri;
use crate::vocab::rdf_type;
use crate::vocab::rdf_type_iri;
use crate::vocab::prefix_table;

verus! {

/// The predicate that the JSON-LD serializer cannot take.
pub open spec fn is_reserved_predicate(predicate: TermView) -> bool {
    predicate == TermView::Iri("@type"@)
}

/// What a serializer's answer means: the text where there is one, else
/// the failure of the serializer.
pub fn serialized(raw: Option<String>) -> (res: Result<String, GraphError>)
    ensures
        match raw {
            Some(text) => res matches Ok(given) && given@ == text@,
            None => res matches Err(e) && e == GraphError::Serialization,
        },
{
    match raw {
        Some(text) => Ok(text),
        None => Err(GraphError::Serialization),
    }
}

/// Serializes the store to Turtle, with the ontology's prefixes: the text
/// that the serializer writes for the triples of the store, or the failure
/// where it writes none.
pub fn serialize_graph_to_turtle(graph: &TripleStore) -> (res: Result<String, GraphError>)
    ensures
        res matches Err(e) ==> e == GraphError::Serialization,
        store_plain(*graph) ==> match res {
            Ok(text) => turtle_text(graph@, prefix_pairs()) == Some(text@),
            Err(_) => turtle_text(graph@, prefix_pairs()) is None,
        },
{
    let prefixes = prefix_table();
    serialized(graph.turtle_raw(&prefixes))
}

/// A triple that the JSON-LD serializer writes: one with a resource as
/// subject and an IRI as predicate. It passes over the others.
pub open spec fn jsonld_takes(triple: TripleView) -> bool {
    triple.subject.is_resource() && triple.predicate is Iri
}

/// A text whose first two bytes can be cut off: it has two bytes at least,
/// and no character straddles the cut.
pub open spec fn sliceable(text: Seq<char>) -> bool {
    vstd::utf8::encode_utf8(text).len() >= 2 && vstd::utf8::is_char_boundary(
        vstd::utf8::encode_utf8(text),
        2,
    )
}

/// A triple whose object is an IRI too short for the serializer, which
/// cuts the first two bytes off every IRI object that does not stand under
/// `rdf:type`.
pub open spec fn has_short_object(triple: TripleView) -> bool {
    jsonld_takes(triple) && triple.predicate != rdf_type_iri() && match triple.object {
        TermView::Iri(text) => !sliceable(text),
        _ => false,
    }
}

/// Whether some triple that the serializer writes has `node` as object.
pub open spec fn is_referenced(triples: Set<TripleView>, node: TermView) -> bool {
    exists|other: TripleView|
        triples.contains(other) && jsonld_takes(other) && #[trigger] other.object == node
}

/// A triple that gives a blank node an `rdf:rest`, where no triple points
/// to that blank node. The serializer looks such list nodes up among the
/// objects it has seen.
pub open spec fn has_loose_list(triples: Set<TripleView>, triple: TripleView) -> bool {
    triple.subject is BlankNode && triple.predicate == rdf_iri("rest"@) && !is_referenced(
        triples,
        triple.subject,
    )
}

/// A triple on which the JSON-LD serializer would give up.
pub open spec fn jsonld_refuses(triples: Set<TripleView>, triple: TripleView) -> bool {
    is_reserved_predicate(triple.predicate) || has_short_object(triple) || has_loose_list(
        triples,
        triple,
    )
}

/// A graph that the JSON-LD serializer can write.
pub open spec fn jsonld_writable(triples: Set<TripleView>) -> bool {
    forall|triple: TripleView| triples.contains(triple) ==> !jsonld_refuses(triples, triple)
}

/// Whether some triple of the list that the serializer writes has `node`
/// as object.
fn points_to(list: &Vec<Triple>, node: &Term) -> (found: bool)
    ensures
        found == is_referenced(triple_views(list@).to_set(), node@),
{
    let ghost views = triple_views(list@);
    let mut i: usize = 0;
    while i < list.len()
        invariant
            i <= list.len(),
            views == triple_views(list@),
            forall|j: int|
                0 <= j < i ==> !(jsonld_takes(#[trigger] views[j]) && views[j].object == node@),
        decreases list.len() - i,
    {
        let other = &list[i];
        assert(views[i as int] == other@);
        if !other.subject.is_literal() && other.predicate.is_iri() && other.object.same(node) {
            assert(views.to_set().contains(views[i as int]));
            return true;
        }
        i += 1;
    }
    assert(!is_referenced(views.to_set(), node@)) by {
        if is_referenced(views.to_set(), node@) {
            let other = choose|other: TripleView|
                views.to_set().contains(other) && jsonld_takes(other) && #[trigger] other.object
                    == node@;
            let k = choose|k: int| 0 <= k < views.len() && views[k] == other;
            assert(!(jsonld_takes(views[k]) && views[k].object == node@));
        }
    }
    false
}

/// Whether the object of the triple is an IRI too short for the
/// serializer.
fn short_object(triple: &Triple, type_term: &Term) -> (found: bool)
    requires
        type_term@ == rdf_type_iri(),
    ensures
        found == has_short_object(triple@),
{
    if triple.subject.is_literal() || !triple.predicate.is_iri() || triple.predicate.same(
        type_term,
    ) {
        return false;
    }
    match &triple.object {
        Term::Iri(text) => {
            let text = text.as_str();
            let bytes = text.as_bytes();
            !(bytes.len() >= 2 && text.is_char_boundary(2))
        },
        _ => false,
    }
}

/// Serializes the store to JSON-LD. A store with a term of another kind is
/// refused, and so is a graph that the serializer cannot write.
pub fn serialize_graph_to_jsonld(graph: &TripleStore) -> (res: Result<String, GraphError>)
    ensures
        !store_plain(*graph) ==> res == Err::<String, GraphError>(GraphError::UnsupportedTerm),
        store_plain(*graph) && !jsonld_writable(graph@) ==> res == Err::<String, GraphError>(
            GraphError::Serialization,
        ),
        res matches Err(e) ==> e == GraphError::Serialization || (e == GraphError::UnsupportedTerm
            && !store_plain(*graph)),
{
    let list = match graph.triples() {
        Ok(list) => list,
        Err(e) => {
            return Err(e);
        },
    };
    let ghost views = triple_views(list@);
    let reserved = Term::iri("@type");
    let type_term = rdf_type();
    let rest = rdf("rest");
    let mut i: usize = 0;
    while i < list.len()
        invariant
            i <= list.len(),
            views == triple_views(list@),
            reserved@ == TermView::Iri("@type"@),
            type_term@ == rdf_type_iri(),
            rest@ == rdf_iri("rest"@),
            views.to_set() == graph@,
            store_plain(*graph),
            forall|j: int| 0 <= j < i ==> !jsonld_refuses(graph@, #[trigger] views[j]),
        decreases list.len() - i,
    {
        let triple = &list[i];
        assert(views[i as int] == triple@);
        assert(views.to_set().contains(views[i as int]));
        if triple.predicate.same(&reserved) || short_object(triple, &type_term) {
            return Err(GraphError::Serialization);
        }
        if triple.subject.is_blank_node() && triple.predicate.same(&rest) && !points_to(
            &list,
            &triple.subject,
        ) {
            return Err(GraphError::Serialization);
        }
        i += 1;
    }
    assert forall|t: TripleView| graph@.contains(t) implies !jsonld_refuses(graph@, t) by {
        let k = choose|k: int| 0 <= k < views.len() && views[k] == t;
        assert(!jsonld_refuses(graph@, views[k]));
    }
    match graph.jsonld_raw() {
        Some(text) => Ok(text),
        None => Err(GraphError::Serialization),
    }
}

} // verus!
