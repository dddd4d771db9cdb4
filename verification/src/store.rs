//! The triple store: an in-memory `sophia` graph behind a plain interface.

use vstd::prelude::*;
use sophia::api::graph::Graph;
use sophia::api::graph::MutableGraph;
use sophia::api::prefix::Prefix;
use sophia::api::serializer::QuadSerializer;
use sophia::api::serializer::Stringifier;
use sophia::api::serializer::TripleSerializer;
use sophia::api::source::TripleSource;
use sophia::api::term::BnodeId;
use sophia::api::term::SimpleTerm;
use sophia::inmem::graph::LightGraph;
use sophia::inmem::index::TermIndexFullError;
use sophia::iri::Iri;
use sophia::iri::IriRef;
use sophia::jsonld::JsonLdOptions;
use sophia::jsonld::serializer::JsonLdSerializer;
use sophia::turtle::serializer::turtle::TurtleConfig;
use sophia::turtle::serializer::turtle::TurtleSerializer;
use crate::error::GraphError;
use crate::rdf_serializers::jsonld_writable;
use crate::term::Term;
use crate::term::TermView;
use crate::term::Triple;
use crate::term::TripleView;
use crate::term::triple_views;
use crate::vocab::prefix_views;

verus! {

/// `sophia_inmem::index::TermIndexFullError`: the failure of a graph whose
/// term index is full.
#[verifier::external_type_specification]
#[verifier::external_body]
pub struct ExTermIndexFullError(TermIndexFullError);

/// A duplicate-free collection of triples, kept in a
/// `sophia::inmem::graph::LightGraph`. The graph is reached through the
/// functions of this module alone, and what they say of it is taken on
/// trust.
#[verifier::external_body]
pub struct TripleStore {
    graph: LightGraph,
}

/// The triples of the store whose three terms are IRIs, blank nodes or
/// literals with a datatype.
pub uninterp spec fn store_triples(store: TripleStore) -> Set<TripleView>;

/// Whether every term in the store is an IRI, a blank node or a literal
/// with a datatype.
pub uninterp spec fn store_plain(store: TripleStore) -> bool;

/// The number of terms that the store has taken into its index: every term
/// of its triples is among them.
pub uninterp spec fn store_terms(store: TripleStore) -> nat;

/// The number of terms that a store can take.
pub open spec fn term_limit() -> nat {
    0xFFFF_FFFF
}

/// Whether the term stands in one of the triples.
pub open spec fn occurs(triples: Set<TripleView>, term: TermView) -> bool {
    exists|t: TripleView|
        triples.contains(t) && (t.subject == term || t.predicate == term || t.object == term)
}

/// Whether a store with that many terms and those triples is sure to take
/// the triple: it has room for three more terms, or it knows all three
/// terms of the triple already.
pub open spec fn has_room(terms: nat, triples: Set<TripleView>, triple: TripleView) -> bool {
    terms + 3 <= term_limit() || (occurs(triples, triple.subject) && occurs(
        triples,
        triple.predicate,
    ) && occurs(triples, triple.object))
}

/// The pretty Turtle text of a set of triples, under the given prefixes
/// with their namespaces, as `sophia_turtle` writes it; `None` where it
/// writes none.
pub uninterp spec fn turtle_text(
    triples: Set<TripleView>,
    prefixes: Seq<(Seq<char>, Seq<char>)>,
) -> Option<Seq<char>>;

/// What the contracts need of a store: the triples that it holds, and the
/// number of terms that it has taken.
pub struct StoreState {
    pub triples: Set<TripleView>,
    pub terms: nat,
}

impl StoreState {
    /// The state of a store that was just made.
    pub open spec fn empty() -> StoreState {
        StoreState { triples: Set::empty(), terms: 0 }
    }

    /// Whether the store is sure to take the triple.
    pub open spec fn takes(self, triple: TripleView) -> bool {
        has_room(self.terms, self.triples, triple)
    }
}

impl TripleStore {
    /// The triples and the number of terms of the store.
    pub open spec fn state(&self) -> StoreState {
        StoreState { triples: store_triples(*self), terms: store_terms(*self) }
    }
}

impl View for TripleStore {
    type V = Set<TripleView>;

    open spec fn view(&self) -> Set<TripleView> {
        store_triples(*self)
    }
}

impl TripleStore {
    /// `LightGraph::new`: a graph without triples and without terms.
    #[verifier::external_body]
    pub(crate) fn empty() -> (store: TripleStore)
        ensures
            store_triples(store) == Set::<TripleView>::empty(),
            store_plain(store),
            store_terms(store) == 0,
    {
        TripleStore { graph: LightGraph::new() }
    }

    /// `MutableGraph::insert` on the `LightGraph`. The graph is a set: the
    /// triple is in it afterwards, nothing else changes, and the answer
    /// tells whether it was new. The call fails, and leaves the triples as
    /// they were, when the graph's term index cannot take another term.
    /// The index takes a term that it does not know as long as it holds
    /// fewer terms than its limit, and a call adds three terms at most: so
    /// the call succeeds where there is room for three, and where the
    /// three terms stand in the triples already.
    #[verifier::external_body]
    pub(crate) fn insert_raw(&mut self, subject: &Term, predicate: &Term, object: &Term) -> (res: Result<bool, TermIndexFullError>)
        requires
            subject@.well_formed(),
            predicate@.well_formed(),
            object@.well_formed(),
        ensures
            store_plain(*final(self)) == store_plain(*old(self)),
            res matches Ok(fresh) ==> store_triples(*final(self)) == store_triples(*old(self)).insert(
                TripleView { subject: subject@, predicate: predicate@, object: object@ },
            ) && fresh == !store_triples(*old(self)).contains(
                TripleView { subject: subject@, predicate: predicate@, object: object@ },
            ),
            res is Err ==> store_triples(*final(self)) == store_triples(*old(self)),
            store_terms(*old(self)) <= store_terms(*final(self)) <= store_terms(*old(self)) + 3,
            has_room(
                store_terms(*old(self)),
                store_triples(*old(self)),
                TripleView { subject: subject@, predicate: predicate@, object: object@ },
            ) ==> res is Ok,
    {
        let conv = |t: &Term| match t {
            Term::Iri(text) => SimpleTerm::Iri(IriRef::new_unchecked(text.clone().into())),
            Term::BlankNode(label) => SimpleTerm::BlankNode(BnodeId::new_unchecked(label.clone().into())),
            Term::Literal { lexical, datatype } => SimpleTerm::LiteralDatatype(
                lexical.clone().into(),
                IriRef::new_unchecked(datatype.clone().into()),
            ),
        };
        self.graph.insert(conv(subject), conv(predicate), conv(object))
    }

    /// `Graph::triples` on the `LightGraph`, each term copied out. Every
    /// triple comes once, in the graph's own order. A term of another kind
    /// (a language-tagged literal, a quoted triple, a variable) has no
    /// counterpart here: the answer is then `None`.
    #[verifier::external_body]
    pub(crate) fn list_raw(&self) -> (res: Option<Vec<Triple>>)
        ensures
            res is Some <==> store_plain(*self),
            res matches Some(triples) ==> triple_views(triples@).no_duplicates()
                && triple_views(triples@).to_set() == store_triples(*self),
    {
        let back = |t: &SimpleTerm| match t {
            SimpleTerm::Iri(iri) => Some(Term::Iri(iri.as_str().to_string())),
            SimpleTerm::BlankNode(id) => Some(Term::BlankNode(id.as_str().to_string())),
            SimpleTerm::LiteralDatatype(lexical, datatype) => Some(Term::Literal {
                lexical: lexical.to_string(),
                datatype: datatype.as_str().to_string(),
            }),
            SimpleTerm::LiteralLanguage(_, _) => None,
            SimpleTerm::Triple(_) => None,
            SimpleTerm::Variable(_) => None,
        };
        self.graph.triples().map(|t| {
            let [s, p, o] = t.ok()?;
            Some(Triple { subject: back(s)?, predicate: back(p)?, object: back(o)? })
        }).collect()
    }
}

impl TripleStore {
    /// `TurtleSerializer::serialize_graph` of `sophia_turtle`, in its pretty
    /// form and with the given prefixes, on the `LightGraph`. `None` where a
    /// prefix or its namespace is refused, or the serializer fails. The
    /// serializer sorts the triples before it writes them, so the answer
    /// is a function of the triples and the prefixes alone.
    #[verifier::external_body]
    pub(crate) fn turtle_raw(&self, prefixes: &Vec<(&'static str, &'static str)>) -> (res: Option<String>)
        ensures
            store_plain(*self) ==> match res {
                Some(text) => turtle_text(store_triples(*self), prefix_views(prefixes@)) == Some(
                    text@,
                ),
                None => turtle_text(store_triples(*self), prefix_views(prefixes@)) is None,
            },
    {
        let map = prefixes.iter().map(|(prefix, namespace)| {
            Some((Prefix::new((*prefix).into()).ok()?, Iri::new((*namespace).into()).ok()?))
        }).collect::<Option<Vec<(Prefix<Box<str>>, Iri<Box<str>>)>>>()?;
        let config = TurtleConfig::default().with_pretty(true).with_own_prefix_map(map);
        let mut serializer = TurtleSerializer::new_stringifier_with_config(config);
        serializer.serialize_graph(&self.graph).ok()?;
        Some(serializer.as_str().to_string())
    }

    /// `JsonLdSerializer::serialize_quads` of `sophia_jsonld`, indented by
    /// two spaces, on the triples of the `LightGraph`. `None` where the
    /// serializer fails. Nothing is claimed of the text. The serializer
    /// panics on three kinds of graph, which are kept out: a predicate
    /// `@type`, which it takes for `rdf:type`; an IRI object of fewer than
    /// two bytes, which it slices; and a blank node with an `rdf:rest` that
    /// no triple points to, which it looks up among the objects.
    #[verifier::external_body]
    pub(crate) fn jsonld_raw(&self) -> (res: Option<String>)
        requires
            store_plain(*self),
            jsonld_writable(store_triples(*self)),
    {
        let options = JsonLdOptions::new().with_spaces(2);
        let mut serializer = JsonLdSerializer::new_stringifier_with_options(options);
        serializer.serialize_quads(self.graph.triples().to_quads()).ok()?;
        Some(serializer.as_str().to_string())
    }
}

/// What a batch of insertions leaves behind.
///
/// Where a triple of the batch is not well formed, nothing is written and
/// the failure says so. Otherwise the batch is written, and the store
/// grows by three terms for each triple at most. The writing succeeds
/// wherever the store has room for that many terms: then the batch was
/// added to the set. Only a store without that room can fail, and part of
/// the batch may then have been written.
pub open spec fn batch_outcome(
    before: StoreState,
    after: StoreState,
    batch: Seq<TripleView>,
    res: Result<(), GraphError>,
) -> bool {
    if exists|i: int| 0 <= i < batch.len() && !(#[trigger] batch[i]).well_formed() {
        res == Err::<(), GraphError>(GraphError::InvalidTerm) && after == before
    } else {
        before.terms <= after.terms <= before.terms + 3 * batch.len() && match res {
            Ok(()) => after.triples == before.triples.union(batch.to_set()),
            Err(e) => e == GraphError::StoreFull && batch.len() > 0 && before.terms + 3
                * batch.len() > term_limit() && before.triples.subset_of(after.triples)
                && after.triples.subset_of(
                before.triples.union(batch.to_set()),
            ),
        }
    }
}

/// What the insertion of one triple leaves behind. A triple that is not
/// well formed is refused and nothing changes. Else the triple is added to
/// the set, and the store grows by three terms at most; this succeeds
/// wherever the store is sure to take the triple, and a failure leaves the
/// triples as they were.
pub open spec fn insertion_outcome(
    before: StoreState,
    after: StoreState,
    triple: TripleView,
    res: Result<(), GraphError>,
) -> bool {
    if !triple.well_formed() {
        res == Err::<(), GraphError>(GraphError::InvalidTerm) && after == before
    } else {
        before.terms <= after.terms <= before.terms + 3 && match res {
            Ok(()) => after.triples == before.triples.insert(triple),
            Err(e) => e == GraphError::StoreFull && after.triples == before.triples
                && !before.takes(triple),
        }
    }
}

/// The term that a position of a pattern asks for, if it asks for one.
pub open spec fn wanted(term: Option<&Term>) -> Option<TermView> {
    match term {
        Some(term) => Some(term@),
        None => None,
    }
}

/// Whether a triple fits a pattern: every position that the pattern gives
/// holds that term.
pub open spec fn fits(
    triple: TripleView,
    subject: Option<TermView>,
    predicate: Option<TermView>,
    object: Option<TermView>,
) -> bool {
    (subject matches Some(term) ==> triple.subject == term) && (predicate matches Some(term)
        ==> triple.predicate == term) && (object matches Some(term) ==> triple.object == term)
}

/// Whether a term is the one that a position of a pattern asks for.
fn position_fits(term: &Term, asked: Option<&Term>) -> (res: bool)
    ensures
        res == (wanted(asked) matches Some(given) ==> term@ == given),
{
    match asked {
        Some(given) => term.same(given),
        None => true,
    }
}

impl TripleStore {
    /// A store without triples.
    pub fn new() -> (store: TripleStore)
        ensures
            store@ == Set::<TripleView>::empty(),
            store_plain(store),
            store_terms(store) == 0,
    {
        TripleStore::empty()
    }

    /// Adds one triple. The store is a set: a triple that is already there
    /// changes nothing, and the answer is then `false`. A well-formed
    /// triple is taken wherever the store has room for it.
    pub fn insert(&mut self, triple: &Triple) -> (res: Result<bool, GraphError>)
        ensures
            store_plain(*final(self)) == store_plain(*old(self)),
            !triple@.well_formed() ==> res == Err::<bool, GraphError>(GraphError::InvalidTerm)
                && final(self)@ == old(self)@ && store_terms(*final(self)) == store_terms(
                *old(self),
            ),
            triple@.well_formed() ==> match res {
                Ok(fresh) => final(self)@ == old(self)@.insert(triple@) && fresh == !old(
                    self,
                )@.contains(triple@),
                Err(e) => e == GraphError::StoreFull && final(self)@ == old(self)@ && !old(
                    self,
                ).state().takes(triple@),
            },
            old(self)@.contains(triple@) ==> final(self)@ == old(self)@,
            store_terms(*old(self)) <= store_terms(*final(self)) <= store_terms(*old(self)) + 3,
    {
        if !triple.is_well_formed() {
            return Err(GraphError::InvalidTerm);
        }
        match self.insert_raw(&triple.subject, &triple.predicate, &triple.object) {
            Ok(fresh) => {
                assert(old(self)@.contains(triple@) ==> old(self)@.insert(triple@) =~= old(self)@);
                Ok(fresh)
            },
            Err(_) => Err(GraphError::StoreFull),
        }
    }

    /// Adds a batch of triples, after checking that the store accepts every
    /// term of the batch.
    pub fn insert_all(&mut self, triples: &Vec<Triple>) -> (res: Result<(), GraphError>)
        ensures
            store_plain(*final(self)) == store_plain(*old(self)),
            batch_outcome(old(self).state(), final(self).state(), triple_views(triples@), res),
    {
        let ghost batch = triple_views(triples@);
        let mut checked: usize = 0;
        while checked < triples.len()
            invariant
                checked <= triples.len(),
                batch == triple_views(triples@),
                forall|j: int| 0 <= j < checked ==> (#[trigger] batch[j]).well_formed(),
            decreases triples.len() - checked,
        {
            if !triples[checked].is_well_formed() {
                assert(!batch[checked as int].well_formed());
                return Err(GraphError::InvalidTerm);
            }
            checked += 1;
        }
        let mut done: usize = 0;
        while done < triples.len()
            invariant
                done <= triples.len(),
                batch == triple_views(triples@),
                forall|j: int| 0 <= j < batch.len() ==> (#[trigger] batch[j]).well_formed(),
                store_plain(*self) == store_plain(*old(self)),
                self@ == old(self)@.union(batch.take(done as int).to_set()),
                store_terms(*old(self)) <= store_terms(*self) <= store_terms(*old(self)) + 3
                    * done,
            decreases triples.len() - done,
        {
            let triple = &triples[done];
            assert(batch[done as int] == triple@);
            match self.insert_raw(&triple.subject, &triple.predicate, &triple.object) {
                Ok(_) => {},
                Err(_) => {
                    assert(self@.subset_of(old(self)@.union(batch.to_set()))) by {
                        assert forall|t: TripleView| batch.take(done as int).to_set().contains(t)
                            implies batch.to_set().contains(t) by {
                            let k = choose|k: int| 0 <= k < done && batch.take(done as int)[k] == t;
                            assert(batch[k] == t);
                        }
                    }
                    return Err(GraphError::StoreFull);
                },
            }
            proof {
                let next = batch.take(done as int + 1);
                assert(next == batch.take(done as int).push(batch[done as int]));
                assert(next.to_set() =~= batch.take(done as int).to_set().insert(
                    batch[done as int],
                )) by {
                    assert forall|t: TripleView| next.to_set().contains(t) implies batch.take(
                        done as int,
                    ).to_set().insert(batch[done as int]).contains(t) by {
                        let k = choose|k: int| 0 <= k < next.len() && next[k] == t;
                        if k < done {
                            assert(batch.take(done as int)[k] == t);
                        }
                    }
                    assert forall|t: TripleView|
                        batch.take(done as int).to_set().insert(batch[done as int]).contains(
                            t,
                        ) implies next.to_set().contains(t) by {
                        if t == batch[done as int] {
                            assert(next[done as int] == t);
                        } else {
                            let k = choose|k: int|
                                0 <= k < done && batch.take(done as int)[k] == t;
                            assert(next[k] == t);
                        }
                    }
                }
                assert(self@ =~= old(self)@.union(next.to_set()));
            }
            done += 1;
        }
        assert(batch.take(done as int) == batch);
        Ok(())
    }

    /// Every triple of the store, each once, in no promised order.
    pub fn triples(&self) -> (res: Result<Vec<Triple>, GraphError>)
        ensures
            match res {
                Ok(list) => store_plain(*self) && triple_views(list@).no_duplicates()
                    && triple_views(list@).to_set() == self@,
                Err(e) => e == GraphError::UnsupportedTerm && !store_plain(*self),
            },
    {
        match self.list_raw() {
            Some(list) => Ok(list),
            None => Err(GraphError::UnsupportedTerm),
        }
    }

    /// The triples of the store that fit a pattern, each once, in no
    /// promised order. A position that is given must hold that term; a
    /// position that is left open fits every term.
    pub fn matching(
        &self,
        subject: Option<&Term>,
        predicate: Option<&Term>,
        object: Option<&Term>,
    ) -> (res: Result<Vec<Triple>, GraphError>)
        ensures
            match res {
                Ok(list) => store_plain(*self) && triple_views(list@).no_duplicates()
                    && triple_views(list@).to_set() == self@.filter(
                    |t: TripleView| fits(t, wanted(subject), wanted(predicate), wanted(object)),
                ),
                Err(e) => e == GraphError::UnsupportedTerm && !store_plain(*self),
            },
    {
        let all = match self.list_raw() {
            Some(all) => all,
            None => {
                return Err(GraphError::UnsupportedTerm);
            },
        };
        let ghost views = triple_views(all@);
        let ghost pattern = |t: TripleView|
            fits(t, wanted(subject), wanted(predicate), wanted(object));
        let mut found: Vec<Triple> = Vec::new();
        let mut i: usize = 0;
        while i < all.len()
            invariant
                i <= all.len(),
                views == triple_views(all@),
                views.no_duplicates(),
                pattern == |t: TripleView|
                    fits(t, wanted(subject), wanted(predicate), wanted(object)),
                triple_views(found@).no_duplicates(),
                forall|j: int|
                    0 <= j < found@.len() ==> pattern(#[trigger] triple_views(found@)[j]) && exists|
                        k: int,
                    | 0 <= k < i && views[k] == triple_views(found@)[j],
                forall|k: int|
                    0 <= k < i && pattern(#[trigger] views[k]) ==> triple_views(
                        found@,
                    ).contains(views[k]),
            decreases all.len() - i,
        {
            let triple = &all[i];
            assert(views[i as int] == triple@);
            if position_fits(&triple.subject, subject) && position_fits(
                &triple.predicate,
                predicate,
            ) && position_fits(&triple.object, object) {
                let ghost before = triple_views(found@);
                found.push(triple.clone());
                proof {
                    let after = triple_views(found@);
                    assert(after =~= before.push(views[i as int]));
                    assert forall|j: int| 0 <= j < before.len() implies before[j] != views[
                        i as int
                    ] by {
                        let k = choose|k: int| 0 <= k < i && views[k] == before[j];
                    }
                    assert forall|k: int| 0 <= k < i + 1 && pattern(
                        #[trigger] views[k],
                    ) implies after.contains(views[k]) by {
                        if k < i {
                            let j = choose|j: int| 0 <= j < before.len() && before[j] == views[k];
                            assert(after[j] == views[k]);
                        } else {
                            assert(after[before.len() as int] == views[k]);
                        }
                    }
                }
            }
            i += 1;
        }
        proof {
            let listed = triple_views(found@);
            assert(listed.to_set() =~= self@.filter(pattern)) by {
                assert forall|t: TripleView| listed.to_set().contains(t) implies self@.filter(
                    pattern,
                ).contains(t) by {
                    let j = choose|j: int| 0 <= j < listed.len() && listed[j] == t;
                    let k = choose|k: int| 0 <= k < i && views[k] == listed[j];
                    assert(views.to_set().contains(views[k]));
                }
                assert forall|t: TripleView| self@.filter(pattern).contains(
                    t,
                ) implies listed.to_set().contains(t) by {
                    let k = choose|k: int| 0 <= k < views.len() && views[k] == t;
                    assert(listed.contains(views[k]));
                }
            }
        }
        Ok(found)
    }

    /// The number of triples in the store.
    pub fn len(&self) -> (res: Result<usize, GraphError>)
        ensures
            match res {
                Ok(n) => store_plain(*self) && self@.finite() && n == self@.len(),
                Err(e) => e == GraphError::UnsupportedTerm && !store_plain(*self),
            },
    {
        match self.list_raw() {
            Some(list) => {
                proof {
                    triple_views(list@).unique_seq_to_set();
                }
                Ok(list.len())
            },
            None => Err(GraphError::UnsupportedTerm),
        }
    }

    /// Whether the store holds the triple.
    pub fn contains(&self, triple: &Triple) -> (res: Result<bool, GraphError>)
        ensures
            match res {
                Ok(found) => store_plain(*self) && found == self@.contains(triple@),
                Err(e) => e == GraphError::UnsupportedTerm && !store_plain(*self),
            },
    {
        match self.list_raw() {
            Some(list) => {
                let ghost views = triple_views(list@);
                let mut i: usize = 0;
                while i < list.len()
                    invariant
                        i <= list.len(),
                        views == triple_views(list@),
                        views.to_set() == self@,
                        store_plain(*self),
                        forall|j: int| 0 <= j < i ==> (#[trigger] views[j]) != triple@,
                    decreases list.len() - i,
                {
                    if list[i].same(triple) {
                        assert(views[i as int] == triple@);
                        assert(views.to_set().contains(triple@));
                        return Ok(true);
                    }
                    i += 1;
                }
                assert(!views.to_set().contains(triple@)) by {
                    if views.to_set().contains(triple@) {
                        let k = choose|k: int| 0 <= k < views.len() && views[k] == triple@;
                        assert(views[k] != triple@);
                    }
                }
                Ok(false)
            },
            None => Err(GraphError::UnsupportedTerm),
        }
    }
}

/// The store is a set: inserting a triple a second time changes nothing,
/// and so leaves the number of triples as it was.
pub proof fn second_insertion_changes_nothing(triples: Set<TripleView>, triple: TripleView)
    requires
        triples.finite(),
    ensures
        triples.insert(triple).insert(triple) == triples.insert(triple),
        triples.insert(triple).insert(triple).len() == triples.insert(triple).len(),
        triples.contains(triple) ==> triples.insert(triple) == triples,
{
    assert(triples.insert(triple).insert(triple) =~= triples.insert(triple));
    if triples.contains(triple) {
        assert(triples.insert(triple) =~= triples);
    }
}

/// Writing a batch that is already in the store changes nothing.
pub proof fn second_batch_changes_nothing(
    before: StoreState,
    between: StoreState,
    after: StoreState,
    batch: Seq<TripleView>,
)
    requires
        batch_outcome(before, between, batch, Ok(())),
        batch_outcome(between, after, batch, Ok(())),
    ensures
        after.triples == between.triples,
{
    assert(between.triples.union(batch.to_set()) =~= between.triples);
}

/// A batch of well-formed triples is written with success wherever the
/// store has room for three terms for each of them.
pub proof fn batch_is_written_where_there_is_room(
    before: StoreState,
    after: StoreState,
    batch: Seq<TripleView>,
    res: Result<(), GraphError>,
)
    requires
        batch_outcome(before, after, batch, res),
        forall|i: int| 0 <= i < batch.len() ==> (#[trigger] batch[i]).well_formed(),
        before.terms + 3 * batch.len() <= term_limit(),
    ensures
        res is Ok,
        after.triples == before.triples.union(batch.to_set()),
        after.terms <= before.terms + 3 * batch.len(),
{
}

/// An empty batch is written with success and changes nothing.
pub proof fn empty_batch_succeeds(
    before: StoreState,
    after: StoreState,
    res: Result<(), GraphError>,
)
    requires
        batch_outcome(before, after, Seq::empty(), res),
    ensures
        res is Ok,
        after == before,
{
    assert(before.triples.union(Seq::<TripleView>::empty().to_set()) =~= before.triples);
    assert(after.triples =~= before.triples);
    assert(after.terms == before.terms);
}

/// A store that was just made takes any triple.
pub proof fn fresh_store_takes_any_triple(triple: TripleView)
    ensures
        StoreState::empty().takes(triple),
{
}

} // verus!
