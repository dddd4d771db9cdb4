//! Entities that write themselves into a store.

use vstd::prelude::*;
use crate::emission::count_fields;
use crate::emission::count_value;
use crate::emission::emit_fields_into;
use crate::emission::emit_value;
use crate::emission::emit_value_into;
use crate::emission::fields_demand;
use crate::emission::label_texts;
use crate::emission::node_triples;
use crate::emission::value_demand;
use crate::error::GraphError;
use crate::identity::generate_bnode_label;
use crate::identity::generate_bnode_term;
use crate::identity::generate_resource_identifier_uri;
use crate::identity::is_uuid_text;
use crate::identity::resource_iri;
use crate::node::Identity;
use crate::node::IdentityView;
use crate::node::Link;
use crate::node::Node;
use crate::node::NodeView;
use crate::node::Value;
use crate::node::ValueView;
use crate::node::lemma_fields_view;
use crate::node::lemma_items_view;
use crate::node::items_view;
use crate::store::StoreState;
use crate::store::TripleStore;
use crate::store::batch_is_written_where_there_is_room;
use crate::store::term_limit;
use crate::store::batch_outcome;
use crate::store::empty_batch_succeeds;
use crate::store::store_plain;
use crate::term::Term;
use crate::term::TermView;
use crate::term::bnode_label_accepted;
use crate::term::Triple;
use crate::term::TripleView;
use crate::term::triple_views;

verus! {

/// An entity that can describe itself as triples.
pub trait InsertIntoGraph: Sized {
    /// The entity as data: its identity and its table of fields.
    spec fn node(&self) -> NodeView;

    /// Builds the entity's description.
    fn describe(&self) -> (node: Node)
        ensures
            node@ == self.node(),
    ;

    /// The term that stands for the entity: the IRI derived from its natural
    /// key where it has one, else a fresh blank node.
    fn get_uri(&self) -> (iri: Term)
        ensures
            root_term(self.node().identity, iri@),
    {
        let node = self.describe();
        match node.identity {
            Identity::Keyed(key) => generate_resource_identifier_uri(key),
            Identity::Anonymous => generate_bnode_term(),
        }
    }

    /// Writes the triples that describe the entity, as `iri`, into the
    /// store.
    fn insert_into(&self, graph: &mut TripleStore, iri: Term) -> (res: Result<(), GraphError>)
        ensures
            store_plain(*final(graph)) == store_plain(*old(graph)),
            entity_outcome(old(graph).state(), final(graph).state(), self.node(), iri@, res),
    {
        let node = self.describe();
        insert_node(graph, &node, &iri)
    }
}

/// Labels as the generator hands them out: `count` of them, each the text
/// of a random UUID, which the store accepts as a blank node label.
pub open spec fn minted(labels: Seq<Seq<char>>, count: nat) -> bool {
    labels.len() == count && forall|i: int|
        0 <= i < labels.len() ==> is_uuid_text(#[trigger] labels[i]) && bnode_label_accepted(
            labels[i],
        )
}

/// The term of an entity that stands on its own: the IRI of its natural
/// key, or a blank node whose label is the text of a random UUID.
pub open spec fn root_term(identity: IdentityView, term: TermView) -> bool {
    match identity {
        IdentityView::Keyed(key) => term == resource_iri(key),
        IdentityView::Anonymous => match term {
            TermView::BlankNode(label) => is_uuid_text(label) && bnode_label_accepted(label),
            _ => false,
        },
    }
}

/// What the insertion of an entity leaves behind: the outcome of writing
/// its triples as one batch, for some labels for its blank nodes, each the
/// text of a random UUID. An entity with more blank nodes than the machine
/// can count is refused.
pub open spec fn entity_outcome(
    before: StoreState,
    after: StoreState,
    node: NodeView,
    subject: TermView,
    res: Result<(), GraphError>,
) -> bool {
    if fields_demand(node.fields, node.fields.len()) > usize::MAX {
        res == Err::<(), GraphError>(GraphError::LabelShortage) && after == before
    } else {
        exists|labels: Seq<Seq<char>>|
            minted(labels, fields_demand(node.fields, node.fields.len())) && #[trigger] batch_outcome(
                before,
                after,
                node_triples(node, subject, labels),
                res,
            )
    }
}

/// As many fresh labels as asked for, each the text of a random UUID.
pub fn mint_labels(count: usize) -> (labels: Vec<String>)
    ensures
        labels@.len() == count,
        minted(label_texts(labels@), count as nat),
{
    let mut labels: Vec<String> = Vec::new();
    while labels.len() < count
        invariant
            labels@.len() <= count,
            forall|i: int|
                0 <= i < labels@.len() ==> is_uuid_text(#[trigger] labels@[i]@)
                    && bnode_label_accepted(labels@[i]@),
        decreases count - labels@.len(),
    {
        labels.push(generate_bnode_label());
    }
    labels
}

/// The triples that describe the entity `subject`, with the given labels
/// for its blank nodes, in the order of its table. `None` where the labels
/// do not suffice.
pub fn flatten(node: &Node, subject: &Term, labels: &Vec<String>) -> (res: Option<Vec<Triple>>)
    ensures
        res is Some <==> fields_demand(node@.fields, node@.fields.len()) <= labels@.len(),
        res matches Some(triples) ==> triple_views(triples@) == node_triples(
            node@,
            subject@,
            label_texts(labels@),
        ),
{
    proof {
        lemma_fields_view(node.fields@, node.fields@.len());
    }
    let given = labels.len();
    match count_fields(&node.fields) {
        None => None,
        Some(needed) => {
            if needed > given {
                None
            } else {
                let mut out: Vec<Triple> = Vec::new();
                let _ = emit_fields_into(subject, &node.fields, labels, 0, &mut out);
                assert(triple_views(out@) =~= node_triples(
                    node@,
                    subject@,
                    label_texts(labels@),
                ));
                Some(out)
            }
        },
    }
}

/// Writes the triples that describe the entity `subject` into the store,
/// with the given labels for its blank nodes.
pub fn insert_node_with(
    graph: &mut TripleStore,
    node: &Node,
    subject: &Term,
    labels: &Vec<String>,
) -> (res: Result<(), GraphError>)
    ensures
        store_plain(*final(graph)) == store_plain(*old(graph)),
        fields_demand(node@.fields, node@.fields.len()) > labels@.len() ==> res == Err::<
            (),
            GraphError,
        >(GraphError::LabelShortage) && final(graph).state() == old(graph).state(),
        fields_demand(node@.fields, node@.fields.len()) <= labels@.len() ==> batch_outcome(
            old(graph).state(),
            final(graph).state(),
            node_triples(node@, subject@, label_texts(labels@)),
            res,
        ),
{
    match flatten(node, subject, labels) {
        None => Err(GraphError::LabelShortage),
        Some(triples) => graph.insert_all(&triples),
    }
}

/// Writes the triples that describe the entity `subject` into the store,
/// with fresh labels for its blank nodes.
pub fn insert_node(graph: &mut TripleStore, node: &Node, subject: &Term) -> (res: Result<
    (),
    GraphError,
>)
    ensures
        store_plain(*final(graph)) == store_plain(*old(graph)),
        entity_outcome(old(graph).state(), final(graph).state(), node@, subject@, res),
{
    proof {
        lemma_fields_view(node.fields@, node.fields@.len());
    }
    match count_fields(&node.fields) {
        None => Err(GraphError::LabelShortage),
        Some(needed) => {
            let labels = mint_labels(needed);
            let res = insert_node_with(graph, node, subject, &labels);
            assert(batch_outcome(
                old(graph).state(),
                graph.state(),
                node_triples(node@, subject@, label_texts(labels@)),
                res,
            ));
            res
        },
    }
}

/// What attaching one field leaves behind: the outcome of writing the
/// triples of the field as one batch, for some labels for its blank nodes,
/// each the text of a random UUID. A value with more blank nodes than the
/// machine can count is refused.
pub open spec fn attachment_outcome(
    before: StoreState,
    after: StoreState,
    subject: TermView,
    predicate: TermView,
    value: ValueView,
    res: Result<(), GraphError>,
) -> bool {
    if value_demand(value) > usize::MAX {
        res == Err::<(), GraphError>(GraphError::LabelShortage) && after == before
    } else {
        exists|labels: Seq<Seq<char>>|
            minted(labels, value_demand(value)) && #[trigger] batch_outcome(
                before,
                after,
                emit_value(subject, predicate, value, labels, 0),
                res,
            )
    }
}

/// Attaches one field to the entity `subject` in the store: nothing for an
/// absent value, one triple for a scalar, the link and the description for
/// a nested entity, and all of that for each item of a repeated value.
pub fn attach_into(
    graph: &mut TripleStore,
    subject: &Term,
    predicate: &Term,
    value: &Value,
) -> (res: Result<(), GraphError>)
    ensures
        store_plain(*final(graph)) == store_plain(*old(graph)),
        attachment_outcome(
            old(graph).state(),
            final(graph).state(),
            subject@,
            predicate@,
            value@,
            res,
        ),
{
    match count_value(value) {
        None => Err(GraphError::LabelShortage),
        Some(needed) => {
            let labels = mint_labels(needed);
            let mut triples: Vec<Triple> = Vec::new();
            let _ = emit_value_into(subject, predicate, value, &labels, 0, &mut triples);
            assert(triple_views(triples@) =~= emit_value(
                subject@,
                predicate@,
                value@,
                label_texts(labels@),
                0,
            ));
            let res = graph.insert_all(&triples);
            assert(batch_outcome(
                old(graph).state(),
                graph.state(),
                emit_value(subject@, predicate@, value@, label_texts(labels@), 0),
                res,
            ));
            res
        },
    }
}

impl Value {
    /// A nested entity.
    pub fn nested<T: InsertIntoGraph>(entity: &T) -> (value: Value)
        ensures
            value@ == nested_value(*entity),
    {
        Value::Entity(Link::Forward, entity.describe())
    }

    /// An entity of its own, tied to its holder as `link` says.
    pub fn linked<T: InsertIntoGraph>(link: Link, entity: &T) -> (value: Value)
        ensures
            value@ == linked_value(link, *entity),
    {
        Value::Entity(link, entity.describe())
    }

    /// A nested entity, where there is one.
    pub fn optional<T: InsertIntoGraph>(entity: &Option<T>) -> (value: Value)
        ensures
            value@ == optional_value(*entity),
    {
        match entity {
            Some(entity) => Value::Entity(Link::Forward, entity.describe()),
            None => Value::Absent,
        }
    }

    /// A nested entity for each element.
    pub fn each<T: InsertIntoGraph>(entities: &Vec<T>) -> (value: Value)
        ensures
            value@ == repeated_value(entities@),
    {
        Value::each_linked(Link::Forward, entities)
    }

    /// An entity for each element, tied to the holder as `link` says.
    pub fn each_linked<T: InsertIntoGraph>(link: Link, entities: &Vec<T>) -> (value: Value)
        ensures
            value@ == repeated_linked_value(link, entities@),
    {
        let mut items: Vec<Value> = Vec::new();
        let mut i: usize = 0;
        while i < entities.len()
            invariant
                i <= entities.len(),
                items@.len() == i,
                forall|j: int|
                    0 <= j < i ==> (#[trigger] items@[j])@ == linked_value(link, entities@[j]),
            decreases entities.len() - i,
        {
            items.push(Value::Entity(link, entities[i].describe()));
            i += 1;
        }
        proof {
            lemma_items_view(items@, items@.len());
            assert(items_view(items@, items@.len()) =~= entities@.map_values(
                |entity: T| linked_value(link, entity),
            ));
        }
        Value::Repeated(items)
    }
}

/// The value of a field that holds an entity of its own, tied to the
/// holder as `link` says.
pub open spec fn linked_value<T: InsertIntoGraph>(link: Link, entity: T) -> ValueView {
    ValueView::Entity(link, entity.node())
}

/// The value of a field that holds an entity.
pub open spec fn nested_value<T: InsertIntoGraph>(entity: T) -> ValueView {
    linked_value(Link::Forward, entity)
}

/// The value of a field that may hold an entity.
pub open spec fn optional_value<T: InsertIntoGraph>(entity: Option<T>) -> ValueView {
    match entity {
        Some(entity) => nested_value(entity),
        None => ValueView::Absent,
    }
}

/// The value of a field that holds a sequence of entities of their own.
pub open spec fn repeated_linked_value<T: InsertIntoGraph>(link: Link, entities: Seq<T>) -> ValueView {
    ValueView::Repeated(entities.map_values(|entity: T| linked_value(link, entity)))
}

/// The value of a field that holds a sequence of entities.
pub open spec fn repeated_value<T: InsertIntoGraph>(entities: Seq<T>) -> ValueView {
    repeated_linked_value(Link::Forward, entities)
}

/// An entity whose description holds no triple is inserted with success,
/// and the store stays as it was.
pub proof fn entity_without_triples_changes_nothing(
    before: StoreState,
    after: StoreState,
    node: NodeView,
    subject: TermView,
    res: Result<(), GraphError>,
)
    requires
        entity_outcome(before, after, node, subject, res),
        fields_demand(node.fields, node.fields.len()) <= usize::MAX,
        forall|labels: Seq<Seq<char>>| (#[trigger] node_triples(node, subject, labels)).len() == 0,
    ensures
        res is Ok,
        after == before,
{
    let labels = choose|labels: Seq<Seq<char>>|
        minted(labels, fields_demand(node.fields, node.fields.len())) && #[trigger] batch_outcome(
            before,
            after,
            node_triples(node, subject, labels),
            res,
        );
    assert(node_triples(node, subject, labels) =~= Seq::<TripleView>::empty());
    empty_batch_succeeds(before, after, res);
}

/// An entity is inserted with success wherever its triples are well
/// formed and the store has room for three terms for each of them.
pub proof fn entity_is_inserted_where_there_is_room(
    before: StoreState,
    after: StoreState,
    node: NodeView,
    subject: TermView,
    res: Result<(), GraphError>,
    size: nat,
)
    requires
        entity_outcome(before, after, node, subject, res),
        fields_demand(node.fields, node.fields.len()) <= usize::MAX,
        forall|labels: Seq<Seq<char>>|
            minted(labels, fields_demand(node.fields, node.fields.len())) ==> (
            #[trigger] node_triples(node, subject, labels)).len() <= size && forall|i: int|
                0 <= i < node_triples(node, subject, labels).len() ==> node_triples(
                    node,
                    subject,
                    labels,
                )[i].well_formed(),
        before.terms + 3 * size <= term_limit(),
    ensures
        res is Ok,
        after.terms <= before.terms + 3 * size,
{
    let labels = choose|labels: Seq<Seq<char>>|
        minted(labels, fields_demand(node.fields, node.fields.len())) && #[trigger] batch_outcome(
            before,
            after,
            node_triples(node, subject, labels),
            res,
        );
    let batch = node_triples(node, subject, labels);
    assert(forall|i: int| 0 <= i < batch.len() ==> (#[trigger] batch[i]).well_formed());
    batch_is_written_where_there_is_room(before, after, batch, res);
}

} // verus!
