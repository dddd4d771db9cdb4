//! The graph of one document: built by inserting entities, then linked to
//! its source and, if asked, freed of blank nodes.

use vstd::prelude::*;
use vstd::string::StringExecFns;
use crate::emission::count_fields;
use crate::emission::emit_fields_into;
use crate::emission::entity_triples;
use crate::emission::label_texts;
use crate::emission::node_demand;
use crate::error::GraphError;
use crate::identity::generate_resource_identifier_uri;
use crate::node::Identity;
use crate::node::lemma_fields_view;
use crate::store::batch_outcome;
use crate::insert_into::InsertIntoGraph;
use crate::insert_into::entity_outcome;
use crate::insert_into::root_term;
use crate::rdf_serializers::jsonld_writable;
use crate::rdf_serializers::serialize_graph_to_jsonld;
use crate::rdf_serializers::serialize_graph_to_turtle;
use crate::store::StoreState;
use crate::store::TripleStore;
use crate::store::insertion_outcome;
use crate::store::occurs;
use crate::store::term_limit;
use crate::store::store_plain;
use crate::store::turtle_text;
use crate::term::Term;
use crate::term::TermView;
use crate::term::Triple;
use crate::term::TripleView;
use crate::term::triple_views;
use crate::vocab::allores;
use crate::vocab::allores_iri;
use crate::vocab::cat;
use crate::vocab::cat_iri;
use crate::vocab::plain_literal;
use crate::vocab::prefix_pairs;
use crate::vocab::rdf_type;
use crate::vocab::rdf_type_iri;
use crate::vocab::schema;
use crate::vocab::schema_iri;
use crate::vocab::string_literal;

verus! {

/// An RDF graph under construction.
pub struct GraphBuilder {
    pub graph: TripleStore,
}

impl View for GraphBuilder {
    type V = Set<TripleView>;

    open spec fn view(&self) -> Set<TripleView> {
        self.graph@
    }
}

/// A class whose instance is the root entity of a document.
pub open spec fn is_root_type(object: TermView) -> bool {
    object == cat_iri("Campaign"@) || object == allores_iri("AFR_0002524"@)
}

/// A triple that types a root entity.
pub open spec fn is_root(triple: TripleView) -> bool {
    triple.predicate == rdf_type_iri() && is_root_type(triple.object)
}

/// Whether the graph holds a triple that types a root entity.
pub open spec fn holds_root(triples: Set<TripleView>) -> bool {
    exists|t: TripleView| triples.contains(t) && is_root(t)
}

/// The triple that links an entity to the content it was made from.
pub open spec fn content_link(subject: TermView, url: Seq<char>) -> TripleView {
    TripleView { subject, predicate: schema_iri("contentURL"@), object: string_literal(url) }
}

/// What linking the content leaves behind.
///
/// Without a root entity the graph stays as it is, and that is a success.
/// With two or more the link has no single place to go: the call fails.
/// With exactly one, the link is added to the set and nothing else
/// changes; this succeeds wherever the store is sure to take the link, and
/// can fail only on a store that is full. Every failure leaves the triples
/// as they were.
pub open spec fn link_outcome(
    plain: bool,
    before: StoreState,
    after: StoreState,
    url: Seq<char>,
    res: Result<(), GraphError>,
) -> bool {
    if !plain {
        res == Err::<(), GraphError>(GraphError::UnsupportedTerm) && after == before
    } else if forall|t: TripleView| before.triples.contains(t) ==> !is_root(t) {
        res == Ok::<(), GraphError>(()) && after == before
    } else if exists|first: TripleView, second: TripleView|
        before.triples.contains(first) && before.triples.contains(second) && is_root(first)
            && is_root(second) && first != second {
        res == Err::<(), GraphError>(GraphError::IdentityAmbiguity) && after == before
    } else {
        let root = choose|t: TripleView| before.triples.contains(t) && is_root(t);
        if !root.subject.is_resource() {
            res == Err::<(), GraphError>(GraphError::UnsupportedTerm) && after == before
        } else {
            insertion_outcome(before, after, content_link(root.subject, url), res)
        }
    }
}

/// The text of an optional prefix: the empty text where there is none.
pub open spec fn prefix_text(prefix: Option<&str>) -> Seq<char> {
    match prefix {
        Some(text) => text@,
        None => Seq::empty(),
    }
}

/// A term after materialization: a blank node becomes the IRI made of the
/// prefix and its label, every other term stays.
pub open spec fn materialize_term(prefix: Seq<char>, term: TermView) -> TermView {
    match term {
        TermView::BlankNode(label) => TermView::Iri(prefix + label),
        _ => term,
    }
}

/// A triple after materialization: subject and object are rewritten, the
/// predicate stays.
pub open spec fn materialize_triple(prefix: Seq<char>, triple: TripleView) -> TripleView {
    TripleView {
        subject: materialize_term(prefix, triple.subject),
        predicate: triple.predicate,
        object: materialize_term(prefix, triple.object),
    }
}

/// A graph after materialization.
pub open spec fn materialized(prefix: Seq<char>, triples: Set<TripleView>) -> Set<TripleView> {
    Set::new(
        |after: TripleView|
            exists|before: TripleView|
                triples.contains(before) && #[trigger] materialize_triple(prefix, before) == after,
    )
}

/// What materialization leaves behind.
///
/// A term of an unsupported kind, or a literal as subject, is refused. So
/// is a prefix that makes of some label a text that is no IRI reference.
/// Otherwise the graph is written anew, into a store of its own: success
/// means that the graph is the old one rewritten, and it is owed wherever
/// a store has room for three terms for each triple of the graph. Every
/// failure leaves the store as it was.
pub open spec fn materialize_outcome(
    plain: bool,
    before: StoreState,
    after: StoreState,
    prefix: Seq<char>,
    res: Result<(), GraphError>,
) -> bool {
    if !plain || exists|t: TripleView|
        before.triples.contains(t) && #[trigger] t.subject is Literal {
        res == Err::<(), GraphError>(GraphError::UnsupportedTerm) && after == before
    } else if exists|t: TripleView|
        before.triples.contains(t) && !(#[trigger] materialize_triple(prefix, t)).well_formed() {
        res == Err::<(), GraphError>(GraphError::InvalidTerm) && after == before
    } else {
        match res {
            Ok(()) => after.triples == materialized(prefix, before.triples) && after.terms <= 3
                * before.triples.len(),
            Err(e) => e == GraphError::StoreFull && after == before && 3 * before.triples.len()
                > term_limit(),
        }
    }
}

/// Rewrites one term for materialization.
pub fn materialize(prefix: &str, term: &Term) -> (res: Term)
    ensures
        res@ == materialize_term(prefix@, term@),
{
    match term {
        Term::BlankNode(label) => {
            let mut text = String::from_str(prefix);
            text.append(label.as_str());
            Term::Iri(text)
        },
        _ => term.clone(),
    }
}

impl GraphBuilder {
    /// The triples and the number of terms of the graph.
    pub open spec fn state(&self) -> StoreState {
        self.graph.state()
    }

    /// A builder with an empty graph.
    pub fn new() -> (builder: GraphBuilder)
        ensures
            builder@ == Set::<TripleView>::empty(),
            store_plain(builder.graph),
            builder.state() == StoreState::empty(),
    {
        GraphBuilder { graph: TripleStore::new() }
    }

    /// Inserts an entity into the graph as a collection of triples. The
    /// entity stands under the IRI of its natural key, or under a fresh
    /// blank node.
    pub fn insert<T: InsertIntoGraph>(&mut self, other: &T) -> (res: Result<(), GraphError>)
        ensures
            store_plain(final(self).graph) == store_plain(old(self).graph),
            exists|subject: TermView|
                root_term(other.node().identity, subject) && #[trigger] entity_outcome(
                    old(self).state(),
                    final(self).state(),
                    other.node(),
                    subject,
                    res,
                ),
    {
        let iri = other.get_uri();
        let ghost subject = iri@;
        let res = other.insert_into(&mut self.graph, iri);
        assert(entity_outcome(old(self).state(), self.state(), other.node(), subject, res));
        res
    }

    /// Inserts an entity into the graph, with the given labels for its
    /// blank nodes: the first for the entity itself, if it has no natural
    /// key, the others for the blank nodes under it.
    pub fn insert_with_labels<T: InsertIntoGraph>(&mut self, other: &T, labels: &Vec<String>) -> (res:
        Result<(), GraphError>)
        ensures
            store_plain(final(self).graph) == store_plain(old(self).graph),
            node_demand(other.node()) > labels@.len() ==> res == Err::<(), GraphError>(
                GraphError::LabelShortage,
            ) && final(self).state() == old(self).state(),
            node_demand(other.node()) <= labels@.len() ==> batch_outcome(
                old(self).state(),
                final(self).state(),
                entity_triples(other.node(), label_texts(labels@)),
                res,
            ),
    {
        let node = other.describe();
        proof {
            lemma_fields_view(node.fields@, node.fields@.len());
        }
        let given = labels.len();
        let own: usize = match node.identity {
            Identity::Anonymous => 1,
            Identity::Keyed(_) => 0,
        };
        let inner = match count_fields(&node.fields) {
            Some(inner) => inner,
            None => {
                return Err(GraphError::LabelShortage);
            },
        };
        if own > given || inner > given - own {
            return Err(GraphError::LabelShortage);
        }
        let subject = match &node.identity {
            Identity::Anonymous => Term::BlankNode(labels[0].clone()),
            Identity::Keyed(key) => generate_resource_identifier_uri(key.clone()),
        };
        let mut triples: Vec<Triple> = Vec::new();
        let _ = emit_fields_into(&subject, &node.fields, labels, own, &mut triples);
        assert(triple_views(triples@) =~= entity_triples(other.node(), label_texts(labels@)));
        self.graph.insert_all(&triples)
    }

    /// The triples of the graph that type a root entity, each once.
    pub fn roots(&self) -> (res: Result<Vec<Triple>, GraphError>)
        ensures
            match res {
                Ok(list) => store_plain(self.graph) && triple_views(list@).no_duplicates()
                    && triple_views(list@).to_set() == self@.filter(|t: TripleView| is_root(t)),
                Err(e) => e == GraphError::UnsupportedTerm && !store_plain(self.graph),
            },
    {
        let type_term = rdf_type();
        let campaign = cat("Campaign");
        let document = allores("AFR_0002524");
        proof {
            reveal_strlit("http://example.org/catplus/ontology/");
            reveal_strlit("Campaign");
            reveal_strlit("http://purl.allotrope.org/ontologies/result#");
            reveal_strlit("AFR_0002524");
            assert(("http://example.org/catplus/ontology/"@ + "Campaign"@).len() == 44);
            assert(("http://purl.allotrope.org/ontologies/result#"@ + "AFR_0002524"@).len() == 55);
            assert(campaign@ != document@);
        }
        let mut found = match self.graph.matching(None, Some(&type_term), Some(&campaign)) {
            Ok(list) => list,
            Err(e) => {
                return Err(e);
            },
        };
        let others = match self.graph.matching(None, Some(&type_term), Some(&document)) {
            Ok(list) => list,
            Err(e) => {
                return Err(e);
            },
        };
        let ghost first = triple_views(found@);
        let ghost second = triple_views(others@);
        proof {
            assert forall|k: int| 0 <= k < second.len() implies (#[trigger] second[k]).object
                == document@ && second[k].predicate == rdf_type_iri() && self@.contains(
                second[k],
            ) by {
                assert(second.to_set().contains(second[k]));
            }
            assert forall|j: int| 0 <= j < first.len() implies self@.contains(#[trigger] first[j])
                && first[j].predicate == rdf_type_iri() && first[j].object == campaign@ by {
                assert(first.to_set().contains(first[j]));
            }
        }
        let mut i: usize = 0;
        while i < others.len()
            invariant
                i <= others.len(),
                second == triple_views(others@),
                second.no_duplicates(),
                campaign@ == cat_iri("Campaign"@),
                document@ == allores_iri("AFR_0002524"@),
                campaign@ != document@,
                forall|k: int|
                    0 <= k < second.len() ==> (#[trigger] second[k]).object == document@
                        && second[k].predicate == rdf_type_iri() && self@.contains(second[k]),
                triple_views(found@).no_duplicates(),
                forall|j: int|
                    0 <= j < found@.len() ==> self@.contains(#[trigger] triple_views(found@)[j])
                        && triple_views(found@)[j].predicate == rdf_type_iri() && (triple_views(
                        found@,
                    )[j].object == campaign@ || exists|k: int|
                        0 <= k < i && second[k] == triple_views(found@)[j]),
                forall|j: int|
                    0 <= j < first.len() ==> triple_views(found@).contains(#[trigger] first[j]),
                forall|k: int| 0 <= k < i ==> triple_views(found@).contains(#[trigger] second[k]),
            decreases others.len() - i,
        {
            let ghost before = triple_views(found@);
            found.push(others[i].clone());
            proof {
                let after = triple_views(found@);
                assert(after =~= before.push(second[i as int]));
                assert forall|j: int| 0 <= j < before.len() implies before[j] != second[
                    i as int
                ] by {
                    if before[j].object != campaign@ {
                        let k = choose|k: int| 0 <= k < i && second[k] == before[j];
                    }
                }
                assert forall|j: int| 0 <= j < first.len() implies after.contains(
                    #[trigger] first[j],
                ) by {
                    let at = choose|at: int| 0 <= at < before.len() && before[at] == first[j];
                    assert(after[at] == first[j]);
                }
                assert forall|k: int| 0 <= k < i + 1 implies after.contains(
                    #[trigger] second[k],
                ) by {
                    if k < i {
                        let at = choose|at: int| 0 <= at < before.len() && before[at] == second[k];
                        assert(after[at] == second[k]);
                    } else {
                        assert(after[before.len() as int] == second[k]);
                    }
                }
            }
            i += 1;
        }
        proof {
            let listed = triple_views(found@);
            let wanted = |t: TripleView| is_root(t);
            assert(listed.to_set() =~= self@.filter(wanted)) by {
                assert forall|t: TripleView| listed.to_set().contains(t) implies self@.filter(
                    wanted,
                ).contains(t) by {
                    let j = choose|j: int| 0 <= j < listed.len() && listed[j] == t;
                    assert(self@.contains(listed[j]));
                }
                assert forall|t: TripleView| self@.filter(wanted).contains(
                    t,
                ) implies listed.to_set().contains(t) by {
                    if t.object == campaign@ {
                        assert(first.to_set().contains(t));
                        let j = choose|j: int| 0 <= j < first.len() && first[j] == t;
                        assert(listed.contains(first[j]));
                    } else {
                        assert(second.to_set().contains(t));
                        let k = choose|k: int| 0 <= k < second.len() && second[k] == t;
                        assert(listed.contains(second[k]));
                    }
                }
            }
        }
        Ok(found)
    }

    /// Whether the graph holds a root entity, to which a content URL
    /// could be added.
    pub fn has_root(&self) -> (res: Result<bool, GraphError>)
        ensures
            match res {
                Ok(found) => store_plain(self.graph) && found == holds_root(self@),
                Err(e) => e == GraphError::UnsupportedTerm && !store_plain(self.graph),
            },
    {
        let roots = match self.roots() {
            Ok(roots) => roots,
            Err(e) => {
                return Err(e);
            },
        };
        let ghost views = triple_views(roots@);
        proof {
            if roots@.len() > 0 {
                assert(views.to_set().contains(views[0]));
                assert(self@.contains(views[0]) && is_root(views[0]));
            }
            if holds_root(self@) {
                let t = choose|t: TripleView| self@.contains(t) && is_root(t);
                assert(views.to_set().contains(t));
                let j = choose|j: int| 0 <= j < views.len() && views[j] == t;
            }
        }
        Ok(roots.len() > 0)
    }

    /// Adds a content URL to the root entity of the graph.
    pub fn link_content(&mut self, content_url: &str) -> (res: Result<(), GraphError>)
        ensures
            store_plain(final(self).graph) == store_plain(old(self).graph),
            link_outcome(
                store_plain(old(self).graph),
                old(self).state(),
                final(self).state(),
                content_url@,
                res,
            ),
    {
        let roots = match self.roots() {
            Ok(roots) => roots,
            Err(e) => {
                return Err(e);
            },
        };
        let ghost views = triple_views(roots@);
        let ghost before = self@;
        if roots.len() == 0 {
            assert forall|t: TripleView| before.contains(t) implies !is_root(t) by {
                if is_root(t) {
                    assert(views.to_set().contains(t));
                    let j = choose|j: int| 0 <= j < views.len() && views[j] == t;
                }
            }
            return Ok(());
        }
        proof {
            assert(views.to_set().contains(views[0]));
            assert(before.contains(views[0]) && is_root(views[0]));
        }
        if roots.len() > 1 {
            proof {
                assert(views.to_set().contains(views[1]));
                assert(before.contains(views[0]) && before.contains(views[1]) && is_root(views[0])
                    && is_root(views[1]) && views[0] != views[1]);
            }
            return Err(GraphError::IdentityAmbiguity);
        }
        let root = &roots[0];
        proof {
            let r = views[0];
            assert forall|t: TripleView| before.contains(t) && is_root(t) implies t == r by {
                assert(views.to_set().contains(t));
                let j = choose|j: int| 0 <= j < views.len() && views[j] == t;
            }
            let chosen = choose|t: TripleView| before.contains(t) && is_root(t);
            assert(chosen == r);
            assert(root@ == r);
        }
        if root.subject.is_literal() {
            return Err(GraphError::UnsupportedTerm);
        }
        let link = Triple::new(
            root.subject.clone(),
            schema("contentURL"),
            plain_literal(content_url),
        );
        assert(link@ == content_link(root@.subject, content_url@));
        match self.graph.insert(&link) {
            Ok(_) => Ok(()),
            Err(e) => Err(e),
        }
    }

    /// Materializes blank nodes in the graph by replacing them with IRIs.
    /// If a prefix is given, it is used for all materialized blank nodes.
    /// Otherwise, the empty string is used as the prefix.
    pub fn materialize_blank_nodes(&mut self, prefix: Option<&str>) -> (res: Result<
        (),
        GraphError,
    >)
        ensures
            res is Ok ==> store_plain(final(self).graph),
            res is Err ==> store_plain(final(self).graph) == store_plain(old(self).graph),
            materialize_outcome(
                store_plain(old(self).graph),
                old(self).state(),
                final(self).state(),
                prefix_text(prefix),
                res,
            ),
    {
        let text: &str = match prefix {
            Some(text) => text,
            None => {
                proof {
                    reveal_strlit("");
                }
                assert(""@ =~= Seq::<char>::empty());
                ""
            },
        };
        let list = match self.graph.triples() {
            Ok(list) => list,
            Err(e) => {
                return Err(e);
            },
        };
        let ghost views = triple_views(list@);
        let ghost before = self@;
        let mut rewritten: Vec<Triple> = Vec::new();
        let mut i: usize = 0;
        while i < list.len()
            invariant
                i <= list.len(),
                views == triple_views(list@),
                views.to_set() == before,
                before == self@,
                self == old(self),
                store_plain(self.graph),
                text@ == prefix_text(prefix),
                rewritten@.len() == i,
                forall|j: int| 0 <= j < i ==> !((#[trigger] views[j]).subject is Literal),
                forall|j: int|
                    0 <= j < i ==> (#[trigger] rewritten@[j])@ == materialize_triple(
                        text@,
                        views[j],
                    ),
            decreases list.len() - i,
        {
            let triple = &list[i];
            assert(views[i as int] == triple@);
            if triple.subject.is_literal() {
                assert(before.contains(views[i as int]));
                return Err(GraphError::UnsupportedTerm);
            }
            rewritten.push(
                Triple::new(
                    materialize(text, &triple.subject),
                    triple.predicate.clone(),
                    materialize(text, &triple.object),
                ),
            );
            i += 1;
        }
        let ghost batch = triple_views(rewritten@);
        proof {
            views.unique_seq_to_set();
            assert(batch.len() == before.len());
            assert forall|t: TripleView| before.contains(t) implies !(#[trigger] t.subject
                is Literal) by {
                let j = choose|j: int| 0 <= j < views.len() && views[j] == t;
                assert(!(views[j].subject is Literal));
            }
            assert(batch.to_set() =~= materialized(text@, before)) by {
                assert forall|t: TripleView| batch.to_set().contains(t) implies materialized(
                    text@,
                    before,
                ).contains(t) by {
                    let j = choose|j: int| 0 <= j < batch.len() && batch[j] == t;
                    assert(before.contains(views[j]));
                    assert(materialize_triple(text@, views[j]) == t);
                }
                assert forall|t: TripleView| materialized(text@, before).contains(
                    t,
                ) implies batch.to_set().contains(t) by {
                    let source = choose|source: TripleView|
                        before.contains(source) && #[trigger] materialize_triple(text@, source)
                            == t;
                    let j = choose|j: int| 0 <= j < views.len() && views[j] == source;
                    assert(batch[j] == t);
                }
            }
            if exists|t: TripleView|
                before.contains(t) && !(#[trigger] materialize_triple(text@, t)).well_formed() {
                let t = choose|t: TripleView|
                    before.contains(t) && !(#[trigger] materialize_triple(
                        text@,
                        t,
                    )).well_formed();
                let j = choose|j: int| 0 <= j < views.len() && views[j] == t;
                assert(!batch[j].well_formed());
            } else {
                assert forall|j: int| 0 <= j < batch.len() implies (#[trigger] batch[j]).well_formed() by {
                    assert(before.contains(views[j]));
                    assert(materialize_triple(text@, views[j]).well_formed());
                }
            }
        }
        let mut fresh = TripleStore::new();
        match fresh.insert_all(&rewritten) {
            Ok(()) => {
                assert(fresh@ =~= materialized(text@, before));
                self.graph = fresh;
                Ok(())
            },
            Err(e) => Err(e),
        }
    }

    /// The Turtle serialization of the graph: the text that the serializer
    /// writes for the triples of the graph under the ontology's prefixes,
    /// or the failure where it writes none.
    pub fn serialize_to_turtle(&self) -> (res: Result<String, GraphError>)
        ensures
            res matches Err(e) ==> e == GraphError::Serialization,
            store_plain(self.graph) ==> match res {
                Ok(text) => turtle_text(self@, prefix_pairs()) == Some(text@),
                Err(_) => turtle_text(self@, prefix_pairs()) is None,
            },
    {
        serialize_graph_to_turtle(&self.graph)
    }

    /// The JSON-LD serialization of the graph.
    pub fn serialize_to_jsonld(&self) -> (res: Result<String, GraphError>)
        ensures
            !store_plain(self.graph) ==> res == Err::<String, GraphError>(
                GraphError::UnsupportedTerm,
            ),
            store_plain(self.graph) && !jsonld_writable(self@) ==> res == Err::<
                String,
                GraphError,
            >(GraphError::Serialization),
            res matches Err(e) ==> e == GraphError::Serialization || (e
                == GraphError::UnsupportedTerm && !store_plain(self.graph)),
    {
        serialize_graph_to_jsonld(&self.graph)
    }
}

/// After materialization no subject and no object is a blank node.
pub proof fn materialized_graph_has_no_blank_node(prefix: Seq<char>, triples: Set<TripleView>)
    ensures
        forall|t: TripleView| #[trigger]
            materialized(prefix, triples).contains(t) ==> !(t.subject is BlankNode) && !(t.object
                is BlankNode),
{
    assert forall|t: TripleView| #[trigger]
        materialized(prefix, triples).contains(t) implies !(t.subject is BlankNode) && !(t.object
        is BlankNode) by {
        let source = choose|source: TripleView|
            triples.contains(source) && #[trigger] materialize_triple(prefix, source) == t;
        assert(t.subject == materialize_term(prefix, source.subject));
        assert(t.object == materialize_term(prefix, source.object));
    }
}

/// Materialization puts, for every triple, its rewritten form in the graph:
/// where a blank node with label `L` stood, the IRI `prefix + L` stands, and
/// predicates, literals and IRIs are as before.
pub proof fn materialization_rewrites_every_triple(
    prefix: Seq<char>,
    triples: Set<TripleView>,
    triple: TripleView,
)
    requires
        triples.contains(triple),
    ensures
        materialized(prefix, triples).contains(materialize_triple(prefix, triple)),
        materialize_triple(prefix, triple).predicate == triple.predicate,
        triple.subject matches TermView::BlankNode(label) ==> materialize_triple(
            prefix,
            triple,
        ).subject == TermView::Iri(prefix + label),
        triple.object matches TermView::BlankNode(label) ==> materialize_triple(
            prefix,
            triple,
        ).object == TermView::Iri(prefix + label),
        !(triple.subject is BlankNode) ==> materialize_triple(prefix, triple).subject
            == triple.subject,
        !(triple.object is BlankNode) ==> materialize_triple(prefix, triple).object
            == triple.object,
        !(triple.subject is BlankNode) && !(triple.object is BlankNode) ==> materialized(
            prefix,
            triples,
        ).contains(triple),
{
    assert(materialize_triple(prefix, triple) == materialize_triple(prefix, triple));
}

/// A graph without blank nodes is its own materialization, whatever the
/// prefix.
pub proof fn materialization_keeps_a_graph_without_blank_nodes(
    prefix: Seq<char>,
    triples: Set<TripleView>,
)
    requires
        forall|t: TripleView| #[trigger]
            triples.contains(t) ==> !(t.subject is BlankNode) && !(t.object is BlankNode),
    ensures
        materialized(prefix, triples) == triples,
{
    assert forall|t: TripleView| materialized(prefix, triples).contains(t) implies triples.contains(
        t,
    ) by {
        let source = choose|source: TripleView|
            triples.contains(source) && #[trigger] materialize_triple(prefix, source) == t;
        assert(materialize_triple(prefix, source) == source);
    }
    assert forall|t: TripleView| triples.contains(t) implies materialized(prefix, triples).contains(
        t,
    ) by {
        assert(materialize_triple(prefix, t) == t);
    }
    assert(materialized(prefix, triples) =~= triples);
}

/// Materialization is safe to repeat: a graph that was materialized is
/// left as it is by materializing it again, with any prefix.
pub proof fn materialization_is_idempotent(
    first: Seq<char>,
    second: Seq<char>,
    triples: Set<TripleView>,
)
    ensures
        materialized(second, materialized(first, triples)) == materialized(first, triples),
{
    materialized_graph_has_no_blank_node(first, triples);
    materialization_keeps_a_graph_without_blank_nodes(second, materialized(first, triples));
}

/// With exactly one root entity, the link adds the content triple of that
/// entity and changes nothing else. It succeeds wherever the link is well
/// formed and the store is sure to take it.
pub proof fn link_with_one_root_adds_its_triple(
    before: StoreState,
    after: StoreState,
    url: Seq<char>,
    root: TripleView,
    res: Result<(), GraphError>,
)
    requires
        before.triples.contains(root),
        is_root(root),
        root.subject.is_resource(),
        forall|t: TripleView| before.triples.contains(t) && is_root(t) ==> t == root,
        link_outcome(true, before, after, url, res),
    ensures
        content_link(root.subject, url).well_formed() && before.takes(
            content_link(root.subject, url),
        ) ==> res is Ok,
        res is Ok ==> after.triples == before.triples.insert(content_link(root.subject, url)),
        res is Ok ==> forall|t: TripleView|
            t != content_link(root.subject, url) ==> (after.triples.contains(t)
                <==> before.triples.contains(t)),
        res is Err ==> after.triples == before.triples,
{
    let chosen = choose|t: TripleView| before.triples.contains(t) && is_root(t);
    assert(chosen == root);
}

/// A link that is there already is made again with success, and the graph
/// stays as it is: the link stands in it once.
pub proof fn second_link_changes_nothing(
    before: StoreState,
    after: StoreState,
    url: Seq<char>,
    root: TripleView,
    res: Result<(), GraphError>,
)
    requires
        before.triples.contains(root),
        is_root(root),
        root.subject.is_resource(),
        forall|t: TripleView| before.triples.contains(t) && is_root(t) ==> t == root,
        before.triples.contains(content_link(root.subject, url)),
        content_link(root.subject, url).well_formed(),
        link_outcome(true, before, after, url, res),
    ensures
        res is Ok,
        after.triples == before.triples,
{
    let chosen = choose|t: TripleView| before.triples.contains(t) && is_root(t);
    assert(chosen == root);
    let link = content_link(root.subject, url);
    assert(occurs(before.triples, link.subject));
    assert(occurs(before.triples, link.predicate));
    assert(occurs(before.triples, link.object));
    assert(before.takes(link));
    assert(before.triples.insert(link) =~= before.triples);
}

/// With two root entities the link fails and the store is as it was.
pub proof fn link_with_two_roots_fails(
    plain: bool,
    before: StoreState,
    after: StoreState,
    url: Seq<char>,
    res: Result<(), GraphError>,
    first: TripleView,
    second: TripleView,
)
    requires
        before.triples.contains(first),
        before.triples.contains(second),
        is_root(first),
        is_root(second),
        first != second,
        link_outcome(plain, before, after, url, res),
    ensures
        res is Err,
        plain ==> res == Err::<(), GraphError>(GraphError::IdentityAmbiguity),
        after == before,
{
}

/// Without a root entity the link succeeds and the store is as it was.
pub proof fn link_without_root_changes_nothing(
    before: StoreState,
    after: StoreState,
    url: Seq<char>,
    res: Result<(), GraphError>,
)
    requires
        forall|t: TripleView| before.triples.contains(t) ==> !is_root(t),
        link_outcome(true, before, after, url, res),
    ensures
        res is Ok,
        after == before,
{
}

/// Materialization succeeds on every graph of resources whose rewritten
/// triples are well formed and for which a store has room. After it no
/// subject and no object is a blank node, and every triple stands
/// rewritten.
pub proof fn materialization_succeeds_where_there_is_room(
    before: StoreState,
    after: StoreState,
    prefix: Seq<char>,
    res: Result<(), GraphError>,
)
    requires
        materialize_outcome(true, before, after, prefix, res),
        forall|t: TripleView| before.triples.contains(t) ==> !(#[trigger] t.subject is Literal),
        forall|t: TripleView|
            before.triples.contains(t) ==> (#[trigger] materialize_triple(prefix, t)).well_formed(),
        3 * before.triples.len() <= term_limit(),
    ensures
        res is Ok,
        after.triples == materialized(prefix, before.triples),
        forall|t: TripleView| #[trigger]
            after.triples.contains(t) ==> !(t.subject is BlankNode) && !(t.object is BlankNode),
        forall|t: TripleView|
            before.triples.contains(t) ==> after.triples.contains(
                #[trigger] materialize_triple(prefix, t),
            ),
{
    materialized_graph_has_no_blank_node(prefix, before.triples);
    assert forall|t: TripleView| before.triples.contains(t) implies materialized(
        prefix,
        before.triples,
    ).contains(#[trigger] materialize_triple(prefix, t)) by {
        materialization_rewrites_every_triple(prefix, before.triples, t);
    }
}

/// On a graph without blank nodes, materialization succeeds wherever the
/// triples are well formed and a store has room, and the graph is as it
/// was: the same triples, with the same terms.
pub proof fn materialization_of_a_graph_without_blank_nodes_succeeds(
    before: StoreState,
    after: StoreState,
    prefix: Seq<char>,
    res: Result<(), GraphError>,
)
    requires
        materialize_outcome(true, before, after, prefix, res),
        forall|t: TripleView| #[trigger]
            before.triples.contains(t) ==> t.subject is Iri && !(t.object is BlankNode)
                && t.well_formed(),
        3 * before.triples.len() <= term_limit(),
    ensures
        res is Ok,
        after.triples == before.triples,
{
    assert forall|t: TripleView| before.triples.contains(t) implies (#[trigger] materialize_triple(
        prefix,
        t,
    )).well_formed() by {
        assert(materialize_triple(prefix, t) == t);
    }
    materialization_keeps_a_graph_without_blank_nodes(prefix, before.triples);
}

/// Once a graph is materialized, every further materialization, with any
/// prefix, succeeds wherever a store has room, and leaves the graph as the
/// first one made it.
pub proof fn repeated_materialization_succeeds(
    start: StoreState,
    once: StoreState,
    twice: StoreState,
    first: Seq<char>,
    second: Seq<char>,
    res: Result<(), GraphError>,
)
    requires
        materialize_outcome(true, start, once, first, Ok(())),
        materialize_outcome(true, once, twice, second, res),
        3 * once.triples.len() <= term_limit(),
    ensures
        res is Ok,
        twice.triples == once.triples,
{
    materialized_graph_has_no_blank_node(first, start.triples);
    assert forall|t: TripleView| #[trigger] once.triples.contains(t) implies t.subject is Iri && !(
    t.object is BlankNode) && t.well_formed() by {
        let source = choose|source: TripleView|
            start.triples.contains(source) && #[trigger] materialize_triple(first, source) == t;
        assert(!(source.subject is Literal));
        assert(materialize_triple(first, source).well_formed());
    }
    materialization_of_a_graph_without_blank_nodes_succeeds(once, twice, second, res);
}

} // verus!
