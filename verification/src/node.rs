//! Entities as data.
//!
//! An entity describes itself as a [`Node`]: how it is identified, and a
//! table of predicates with their values. A value is absent, a single term,
//! a nested entity, or a sequence of values.

use vstd::prelude::*;
use vstd::string::StringExecFns;
use crate::term::Term;
use crate::term::TermView;
use crate::vocab::plain_literal;
use crate::vocab::string_literal;
use crate::vocab::typed_literal;
use crate::vocab::xsd_literal;

verus! {

/// How a nested entity is tied to the entity that holds it.
#[derive(Clone, Copy, Debug, PartialEq, Eq, Structural)]
pub enum Link {
    /// holder, predicate, nested
    Forward,
    /// nested, predicate, holder
    Reverse,
    /// no triple ties the two
    Detached,
}

/// How an entity gets its term.
#[derive(Debug)]
pub enum Identity {
    /// No natural key: a blank node.
    Anonymous,
    /// A natural key: the IRI derived from it.
    Keyed(String),
}

/// The mathematical value of an [`Identity`].
pub enum IdentityView {
    Anonymous,
    Keyed(Seq<char>),
}

impl View for Identity {
    type V = IdentityView;

    open spec fn view(&self) -> IdentityView {
        match self {
            Identity::Anonymous => IdentityView::Anonymous,
            Identity::Keyed(key) => IdentityView::Keyed(key@),
        }
    }
}

/// What stands in a field of an entity.
#[derive(Debug)]
pub enum Value {
    /// An optional field without a value.
    Absent,
    /// A literal or an IRI.
    Scalar(Term),
    /// A nested entity.
    Entity(Link, Node),
    /// A repeated field. The order is not kept in the graph.
    Repeated(Vec<Value>),
}

/// One row of an entity's table.
#[derive(Debug)]
pub struct Field {
    pub predicate: Term,
    pub value: Value,
}

/// An entity as data: its identity and its table.
#[derive(Debug)]
pub struct Node {
    pub identity: Identity,
    pub fields: Vec<Field>,
}

/// The mathematical value of a [`Value`].
pub enum ValueView {
    Absent,
    Scalar(TermView),
    Entity(Link, NodeView),
    Repeated(Seq<ValueView>),
}

/// The mathematical value of a [`Field`].
pub struct FieldView {
    pub predicate: TermView,
    pub value: ValueView,
}

/// The mathematical value of a [`Node`].
pub struct NodeView {
    pub identity: IdentityView,
    pub fields: Seq<FieldView>,
}

/// The value of a [`Value`].
pub open spec fn value_view(value: Value) -> ValueView
    decreases value, 0nat,
{
    match value {
        Value::Absent => ValueView::Absent,
        Value::Scalar(term) => ValueView::Scalar(term@),
        Value::Entity(link, node) => ValueView::Entity(link, node_view(node)),
        Value::Repeated(items) => ValueView::Repeated(items_view(items@, items@.len())),
    }
}

/// The value of a [`Node`].
pub open spec fn node_view(node: Node) -> NodeView
    decreases node, 0nat,
{
    NodeView { identity: node.identity@, fields: fields_view(node.fields@, node.fields@.len()) }
}

/// The values of the first `count` items.
pub open spec fn items_view(items: Seq<Value>, count: nat) -> Seq<ValueView>
    decreases items, count,
{
    if count == 0 || count > items.len() {
        Seq::empty()
    } else {
        items_view(items, (count - 1) as nat).push(value_view(items[count - 1]))
    }
}

/// The values of the first `count` fields.
pub open spec fn fields_view(fields: Seq<Field>, count: nat) -> Seq<FieldView>
    decreases fields, count,
{
    if count == 0 || count > fields.len() {
        Seq::empty()
    } else {
        fields_view(fields, (count - 1) as nat).push(
            FieldView {
                predicate: fields[count - 1].predicate@,
                value: value_view(fields[count - 1].value),
            },
        )
    }
}

impl View for Value {
    type V = ValueView;

    open spec fn view(&self) -> ValueView {
        value_view(*self)
    }
}

impl View for Field {
    type V = FieldView;

    open spec fn view(&self) -> FieldView {
        FieldView { predicate: self.predicate@, value: self.value@ }
    }
}

impl View for Node {
    type V = NodeView;

    open spec fn view(&self) -> NodeView {
        node_view(*self)
    }
}

/// The view of a prefix of a sequence of values, item by item.
pub proof fn lemma_items_view(items: Seq<Value>, count: nat)
    requires
        count <= items.len(),
    ensures
        items_view(items, count).len() == count,
        forall|j: int| 0 <= j < count ==> #[trigger] items_view(items, count)[j] == items[j]@,
    decreases count,
{
    if count > 0 {
        lemma_items_view(items, (count - 1) as nat);
    }
}

/// The view of a prefix of a table, row by row.
pub proof fn lemma_fields_view(fields: Seq<Field>, count: nat)
    requires
        count <= fields.len(),
    ensures
        fields_view(fields, count).len() == count,
        forall|j: int| 0 <= j < count ==> #[trigger] fields_view(fields, count)[j] == fields[j]@,
    decreases count,
{
    if count > 0 {
        lemma_fields_view(fields, (count - 1) as nat);
    }
}

/// The view of a prefix does not depend on what follows it.
pub proof fn lemma_fields_view_prefix(shorter: Seq<Field>, longer: Seq<Field>, count: nat)
    requires
        count <= shorter.len(),
        shorter.len() <= longer.len(),
        forall|j: int| 0 <= j < count ==> shorter[j] == longer[j],
    ensures
        fields_view(shorter, count) == fields_view(longer, count),
    decreases count,
{
    if count > 0 {
        lemma_fields_view_prefix(shorter, longer, (count - 1) as nat);
    }
}

impl NodeView {
    /// An entity without a natural key and without fields.
    pub open spec fn anonymous() -> NodeView {
        NodeView { identity: IdentityView::Anonymous, fields: Seq::empty() }
    }

    /// An entity with a natural key and without fields.
    pub open spec fn keyed(key: Seq<char>) -> NodeView {
        NodeView { identity: IdentityView::Keyed(key), fields: Seq::empty() }
    }

    /// The entity with one more field.
    pub open spec fn with(self, predicate: TermView, value: ValueView) -> NodeView {
        NodeView {
            identity: self.identity,
            fields: self.fields.push(FieldView { predicate, value }),
        }
    }
}

impl Node {
    /// An entity without a natural key and without fields.
    pub fn anonymous() -> (node: Node)
        ensures
            node@ == NodeView::anonymous(),
    {
        Node { identity: Identity::Anonymous, fields: Vec::new() }
    }

    /// An entity with a natural key and without fields.
    pub fn keyed(key: &str) -> (node: Node)
        ensures
            node@ == NodeView::keyed(key@),
    {
        Node { identity: Identity::Keyed(String::from_str(key)), fields: Vec::new() }
    }

    /// Adds a field to the table.
    pub fn attach(&mut self, predicate: Term, value: Value)
        ensures
            final(self)@ == old(self)@.with(predicate@, value@),
    {
        proof {
            lemma_fields_view_prefix(
                self.fields@,
                self.fields@.push(Field { predicate, value }),
                self.fields@.len(),
            );
        }
        self.fields.push(Field { predicate, value });
    }
}

impl Value {
    /// A plain string literal.
    pub fn text(text: &str) -> (value: Value)
        ensures
            value@ == ValueView::Scalar(string_literal(text@)),
    {
        Value::Scalar(plain_literal(text))
    }

    /// A plain string literal, where there is a text.
    pub fn optional_text(text: &Option<String>) -> (value: Value)
        ensures
            value@ == optional_text_value(*text),
    {
        match text {
            Some(text) => Value::Scalar(plain_literal(text.as_str())),
            None => Value::Absent,
        }
    }

    /// A literal with a datatype of XML Schema.
    pub fn typed(lexical: &str, datatype: &str) -> (value: Value)
        ensures
            value@ == ValueView::Scalar(xsd_literal(lexical@, datatype@)),
    {
        Value::Scalar(typed_literal(lexical, datatype))
    }

    /// A term as it stands.
    pub fn term(term: Term) -> (value: Value)
        ensures
            value@ == ValueView::Scalar(term@),
    {
        Value::Scalar(term)
    }

    /// A repeated field made of the given values.
    pub fn repeated(items: Vec<Value>) -> (value: Value)
        ensures
            value@ == ValueView::Repeated(items@.map_values(|item: Value| item@)),
    {
        proof {
            lemma_items_view(items@, items@.len());
            assert(items_view(items@, items@.len()) =~= items@.map_values(|item: Value| item@));
        }
        Value::Repeated(items)
    }
}

/// The value of an optional text field.
pub open spec fn optional_text_value(text: Option<String>) -> ValueView {
    match text {
        Some(text) => ValueView::Scalar(string_literal(text@)),
        None => ValueView::Absent,
    }
}

/// The predicate of a field whose entities no triple ties to the holder. It
/// is never written: the empty IRI reference stands in its place.
pub open spec fn no_predicate() -> TermView {
    TermView::Iri(Seq::empty())
}

/// Builds the predicate of a field whose entities no triple ties to the
/// holder.
pub fn unlinked() -> (term: Term)
    ensures
        term@ == no_predicate(),
{
    Term::Iri(String::new())
}

} // verus!
