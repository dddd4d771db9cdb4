//! From a description to its triples.
//!
//! The triples of an entity are those of its fields, in the order of its
//! table. Each blank node under the entity takes one label from a sequence
//! of labels, in the order in which the blank nodes are met.

use vstd::prelude::*;
use crate::identity::generate_resource_identifier_uri;
use crate::identity::resource_iri;
use crate::node::Field;
use crate::node::FieldView;
use crate::node::Identity;
use crate::node::IdentityView;
use crate::node::Link;
use crate::node::NodeView;
use crate::node::Value;
use crate::node::ValueView;
use crate::node::fields_view;
use crate::node::items_view;
use crate::node::lemma_fields_view;
use crate::node::lemma_items_view;
use crate::term::Term;
use crate::term::TermView;
use crate::term::Triple;
use crate::term::TripleView;
use crate::term::triple_views;

verus! {

/// The texts of a sequence of labels.
pub open spec fn label_texts(labels: Seq<String>) -> Seq<Seq<char>> {
    labels.map_values(|label: String| label@)
}

/// How many labels an identity takes: one for a blank node, none for a key.
pub open spec fn identity_demand(identity: IdentityView) -> nat {
    match identity {
        IdentityView::Anonymous => 1,
        IdentityView::Keyed(_) => 0,
    }
}

/// The term of an entity, where `labels[from]` is the label it may take.
pub open spec fn node_subject(identity: IdentityView, labels: Seq<Seq<char>>, from: nat) -> TermView {
    match identity {
        IdentityView::Anonymous => TermView::BlankNode(labels[from as int]),
        IdentityView::Keyed(key) => resource_iri(key),
    }
}

/// How many labels a value takes: one for each blank node under it.
pub open spec fn value_demand(value: ValueView) -> nat
    decreases value, 0nat,
{
    match value {
        ValueView::Absent => 0,
        ValueView::Scalar(_) => 0,
        ValueView::Entity(_, node) => identity_demand(node.identity) + fields_demand(
            node.fields,
            node.fields.len(),
        ),
        ValueView::Repeated(items) => items_demand(items, items.len()),
    }
}

/// How many labels the first `count` fields take.
pub open spec fn fields_demand(fields: Seq<FieldView>, count: nat) -> nat
    decreases fields, count,
{
    if count == 0 || count > fields.len() {
        0
    } else {
        fields_demand(fields, (count - 1) as nat) + value_demand(fields[count - 1].value)
    }
}

/// How many labels the first `count` items take.
pub open spec fn items_demand(items: Seq<ValueView>, count: nat) -> nat
    decreases items, count,
{
    if count == 0 || count > items.len() {
        0
    } else {
        items_demand(items, (count - 1) as nat) + value_demand(items[count - 1])
    }
}

/// How many labels an entity takes, its own included.
pub open spec fn node_demand(node: NodeView) -> nat {
    identity_demand(node.identity) + fields_demand(node.fields, node.fields.len())
}

/// The triples that describe an entity under its own term: the IRI of its
/// natural key, or the blank node with the first label.
pub open spec fn entity_triples(node: NodeView, labels: Seq<Seq<char>>) -> Seq<TripleView> {
    emit_fields(
        node_subject(node.identity, labels, 0),
        node.fields,
        node.fields.len(),
        labels,
        identity_demand(node.identity),
    )
}

/// The triple that ties a nested entity to its holder.
pub open spec fn link_triples(
    link: Link,
    holder: TermView,
    predicate: TermView,
    nested: TermView,
) -> Seq<TripleView> {
    match link {
        Link::Forward => seq![TripleView { subject: holder, predicate, object: nested }],
        Link::Reverse => seq![TripleView { subject: nested, predicate, object: holder }],
        Link::Detached => Seq::empty(),
    }
}

/// The triples of one field of the entity `subject`. Labels are taken from
/// `labels[from]` on, in the order in which blank nodes are met.
pub open spec fn emit_value(
    subject: TermView,
    predicate: TermView,
    value: ValueView,
    labels: Seq<Seq<char>>,
    from: nat,
) -> Seq<TripleView>
    decreases value, 0nat,
{
    match value {
        ValueView::Absent => Seq::empty(),
        ValueView::Scalar(term) => seq![TripleView { subject, predicate, object: term }],
        ValueView::Entity(link, node) => link_triples(
            link,
            subject,
            predicate,
            node_subject(node.identity, labels, from),
        ) + emit_fields(
            node_subject(node.identity, labels, from),
            node.fields,
            node.fields.len(),
            labels,
            from + identity_demand(node.identity),
        ),
        ValueView::Repeated(items) => emit_items(
            subject,
            predicate,
            items,
            items.len(),
            labels,
            from,
        ),
    }
}

/// The triples of the first `count` fields of the entity `subject`.
pub open spec fn emit_fields(
    subject: TermView,
    fields: Seq<FieldView>,
    count: nat,
    labels: Seq<Seq<char>>,
    from: nat,
) -> Seq<TripleView>
    decreases fields, count,
{
    if count == 0 || count > fields.len() {
        Seq::empty()
    } else {
        emit_fields(subject, fields, (count - 1) as nat, labels, from) + emit_value(
            subject,
            fields[count - 1].predicate,
            fields[count - 1].value,
            labels,
            from + fields_demand(fields, (count - 1) as nat),
        )
    }
}

/// The triples of the first `count` items of a repeated field.
pub open spec fn emit_items(
    subject: TermView,
    predicate: TermView,
    items: Seq<ValueView>,
    count: nat,
    labels: Seq<Seq<char>>,
    from: nat,
) -> Seq<TripleView>
    decreases items, count,
{
    if count == 0 || count > items.len() {
        Seq::empty()
    } else {
        emit_items(subject, predicate, items, (count - 1) as nat, labels, from) + emit_value(
            subject,
            predicate,
            items[count - 1],
            labels,
            from + items_demand(items, (count - 1) as nat),
        )
    }
}

/// The triples that describe the entity `subject`: those of all its fields.
pub open spec fn node_triples(
    node: NodeView,
    subject: TermView,
    labels: Seq<Seq<char>>,
) -> Seq<TripleView> {
    emit_fields(subject, node.fields, node.fields.len(), labels, 0)
}

/// More fields take at least as many labels.
pub proof fn lemma_fields_demand_grows(fields: Seq<FieldView>, fewer: nat, more: nat)
    requires
        fewer <= more <= fields.len(),
    ensures
        fields_demand(fields, fewer) <= fields_demand(fields, more),
    decreases more,
{
    if fewer < more {
        lemma_fields_demand_grows(fields, fewer, (more - 1) as nat);
    }
}

/// More items take at least as many labels.
pub proof fn lemma_items_demand_grows(items: Seq<ValueView>, fewer: nat, more: nat)
    requires
        fewer <= more <= items.len(),
    ensures
        items_demand(items, fewer) <= items_demand(items, more),
    decreases more,
{
    if fewer < more {
        lemma_items_demand_grows(items, fewer, (more - 1) as nat);
    }
}

/// Counts the labels that a value takes. `None` where the count does not
/// fit the machine's integers.
pub fn count_value(value: &Value) -> (res: Option<usize>)
    ensures
        match res {
            Some(n) => n == value_demand(value@),
            None => value_demand(value@) > usize::MAX,
        },
    decreases value, 0nat,
{
    match value {
        Value::Absent => Some(0),
        Value::Scalar(_) => Some(0),
        Value::Entity(link, node) => {
            assert(value@ == ValueView::Entity(*link, node@));
            proof {
                lemma_fields_view(node.fields@, node.fields@.len());
            }
            let own: usize = match node.identity {
                Identity::Anonymous => 1,
                Identity::Keyed(_) => 0,
            };
            match count_fields(&node.fields) {
                None => None,
                Some(inner) => if inner > usize::MAX - own {
                    None
                } else {
                    Some(own + inner)
                },
            }
        },
        Value::Repeated(items) => {
            assert(value@ == ValueView::Repeated(items_view(items@, items@.len())));
            let ghost views = items_view(items@, items@.len());
            proof {
                lemma_items_view(items@, items@.len());
            }
            let mut total: usize = 0;
            let mut i: usize = 0;
            while i < items.len()
                invariant
                    i <= items.len(),
                    views == items_view(items@, items@.len()),
                    views.len() == items@.len(),
                    forall|j: int| 0 <= j < items@.len() ==> #[trigger] views[j] == items@[j]@,
                    value@ == ValueView::Repeated(views),
                    decreases_to!(*value => *items),
                    total == items_demand(views, i as nat),
                decreases items.len() - i,
            {
                proof {
                    lemma_items_demand_grows(views, (i + 1) as nat, views.len());
                    assert(decreases_to!(*items => items[i as int]));
                    assert(decreases_to!(*value => items[i as int]));
                }
                match count_value(&items[i]) {
                    None => {
                        return None;
                    },
                    Some(n) => {
                        if n > usize::MAX - total {
                            return None;
                        }
                        total = total + n;
                    },
                }
                i += 1;
            }
            Some(total)
        },
    }
}

/// Counts the labels that the fields of a table take. `None` where the count
/// does not fit the machine's integers.
pub fn count_fields(fields: &Vec<Field>) -> (res: Option<usize>)
    ensures
        match res {
            Some(n) => n == fields_demand(fields_view(fields@, fields@.len()), fields@.len()),
            None => fields_demand(fields_view(fields@, fields@.len()), fields@.len())
                > usize::MAX,
        },
    decreases fields, 0nat,
{
    let ghost views = fields_view(fields@, fields@.len());
    proof {
        lemma_fields_view(fields@, fields@.len());
    }
    let mut total: usize = 0;
    let mut i: usize = 0;
    while i < fields.len()
        invariant
            i <= fields.len(),
            views == fields_view(fields@, fields@.len()),
            views.len() == fields@.len(),
            forall|j: int| 0 <= j < fields@.len() ==> #[trigger] views[j] == fields@[j]@,
            total == fields_demand(views, i as nat),
        decreases fields.len() - i,
    {
        proof {
            lemma_fields_demand_grows(views, (i + 1) as nat, views.len());
            assert(decreases_to!(*fields => fields[i as int]));
        }
        match count_value(&fields[i].value) {
            None => {
                return None;
            },
            Some(n) => {
                if n > usize::MAX - total {
                    return None;
                }
                total = total + n;
            },
        }
        i += 1;
    }
    Some(total)
}

/// Appends the triples of one field of `subject` to `out`, taking labels
/// from `labels[from]` on, and tells how many it took.
pub(crate) fn emit_value_into(
    subject: &Term,
    predicate: &Term,
    value: &Value,
    labels: &Vec<String>,
    from: usize,
    out: &mut Vec<Triple>,
) -> (used: usize)
    requires
        from + value_demand(value@) <= labels.len(),
    ensures
        used == value_demand(value@),
        triple_views(final(out)@) == triple_views(old(out)@) + emit_value(
            subject@,
            predicate@,
            value@,
            label_texts(labels@),
            from as nat,
        ),
    decreases value, 0nat,
{
    let ghost texts = label_texts(labels@);
    let ghost before = triple_views(out@);
    match value {
        Value::Absent => {
            assert(triple_views(out@) =~= before + Seq::<TripleView>::empty());
            0
        },
        Value::Scalar(term) => {
            out.push(Triple::new(subject.clone(), predicate.clone(), term.clone()));
            assert(triple_views(out@) =~= before + seq![
                TripleView { subject: subject@, predicate: predicate@, object: term@ },
            ]);
            0
        },
        Value::Entity(link, node) => {
            assert(value@ == ValueView::Entity(*link, node@));
            proof {
                lemma_fields_view(node.fields@, node.fields@.len());
            }
            let own: usize = match node.identity {
                Identity::Anonymous => 1,
                Identity::Keyed(_) => 0,
            };
            let nested = match &node.identity {
                Identity::Anonymous => Term::BlankNode(labels[from].clone()),
                Identity::Keyed(key) => generate_resource_identifier_uri(key.clone()),
            };
            assert(nested@ == node_subject(node@.identity, texts, from as nat));
            match link {
                Link::Forward => {
                    out.push(Triple::new(subject.clone(), predicate.clone(), nested.clone()));
                },
                Link::Reverse => {
                    out.push(Triple::new(nested.clone(), predicate.clone(), subject.clone()));
                },
                Link::Detached => {},
            }
            assert(triple_views(out@) =~= before + link_triples(
                *link,
                subject@,
                predicate@,
                nested@,
            ));
            let inner = emit_fields_into(&nested, &node.fields, labels, from + own, out);
            assert(triple_views(out@) =~= before + (link_triples(
                *link,
                subject@,
                predicate@,
                nested@,
            ) + emit_fields(
                nested@,
                node@.fields,
                node@.fields.len(),
                texts,
                (from + own) as nat,
            ))) by {
                lemma_fields_view(node.fields@, node.fields@.len());
            }
            own + inner
        },
        Value::Repeated(items) => {
            assert(value@ == ValueView::Repeated(items_view(items@, items@.len())));
            let ghost views = items_view(items@, items@.len());
            proof {
                lemma_items_view(items@, items@.len());
            }
            let mut at: usize = from;
            let mut i: usize = 0;
            assert(triple_views(out@) =~= before + Seq::<TripleView>::empty());
            while i < items.len()
                invariant
                    i <= items.len(),
                    views == items_view(items@, items@.len()),
                    views.len() == items@.len(),
                    forall|j: int| 0 <= j < items@.len() ==> #[trigger] views[j] == items@[j]@,
                    texts == label_texts(labels@),
                    value@ == ValueView::Repeated(views),
                    decreases_to!(*value => *items),
                    at == from + items_demand(views, i as nat),
                    from + items_demand(views, views.len()) <= labels.len(),
                    triple_views(out@) == before + emit_items(
                        subject@,
                        predicate@,
                        views,
                        i as nat,
                        texts,
                        from as nat,
                    ),
                decreases items.len() - i,
            {
                proof {
                    lemma_items_demand_grows(views, (i + 1) as nat, views.len());
                    assert(decreases_to!(*items => items[i as int]));
                    assert(decreases_to!(*value => items[i as int]));
                }
                let n = emit_value_into(subject, predicate, &items[i], labels, at, out);
                assert(triple_views(out@) =~= before + emit_items(
                    subject@,
                    predicate@,
                    views,
                    (i + 1) as nat,
                    texts,
                    from as nat,
                ));
                at = at + n;
                i += 1;
            }
            at - from
        },
    }
}

/// Appends the triples of the fields of `subject` to `out`, taking labels
/// from `labels[from]` on, and tells how many it took.
pub(crate) fn emit_fields_into(
    subject: &Term,
    fields: &Vec<Field>,
    labels: &Vec<String>,
    from: usize,
    out: &mut Vec<Triple>,
) -> (used: usize)
    requires
        from + fields_demand(fields_view(fields@, fields@.len()), fields@.len()) <= labels.len(),
    ensures
        used == fields_demand(fields_view(fields@, fields@.len()), fields@.len()),
        triple_views(final(out)@) == triple_views(old(out)@) + emit_fields(
            subject@,
            fields_view(fields@, fields@.len()),
            fields@.len(),
            label_texts(labels@),
            from as nat,
        ),
    decreases fields, 0nat,
{
    let ghost texts = label_texts(labels@);
    let ghost before = triple_views(out@);
    let ghost views = fields_view(fields@, fields@.len());
    proof {
        lemma_fields_view(fields@, fields@.len());
    }
    let mut at: usize = from;
    let mut i: usize = 0;
    assert(triple_views(out@) =~= before + Seq::<TripleView>::empty());
    while i < fields.len()
        invariant
            i <= fields.len(),
            views == fields_view(fields@, fields@.len()),
            views.len() == fields@.len(),
            forall|j: int| 0 <= j < fields@.len() ==> #[trigger] views[j] == fields@[j]@,
            texts == label_texts(labels@),
            at == from + fields_demand(views, i as nat),
            from + fields_demand(views, views.len()) <= labels.len(),
            triple_views(out@) == before + emit_fields(
                subject@,
                views,
                i as nat,
                texts,
                from as nat,
            ),
        decreases fields.len() - i,
    {
        proof {
            lemma_fields_demand_grows(views, (i + 1) as nat, views.len());
            assert(decreases_to!(*fields => fields[i as int]));
        }
        let n = emit_value_into(subject, &fields[i].predicate, &fields[i].value, labels, at, out);
        assert(triple_views(out@) =~= before + emit_fields(
            subject@,
            views,
            (i + 1) as nat,
            texts,
            from as nat,
        ));
        at = at + n;
        i += 1;
    }
    at - from
}

/// The first fields of a table take the same labels whatever follows them.
pub proof fn lemma_fields_demand_prefix(fields: Seq<FieldView>, last: FieldView, count: nat)
    requires
        count <= fields.len(),
    ensures
        fields_demand(fields.push(last), count) == fields_demand(fields, count),
    decreases count,
{
    if count > 0 {
        lemma_fields_demand_prefix(fields, last, (count - 1) as nat);
    }
}

/// The first fields of a table give the same triples whatever follows them.
pub proof fn lemma_emit_fields_prefix(
    subject: TermView,
    fields: Seq<FieldView>,
    last: FieldView,
    count: nat,
    labels: Seq<Seq<char>>,
    from: nat,
)
    requires
        count <= fields.len(),
    ensures
        emit_fields(subject, fields.push(last), count, labels, from) == emit_fields(
            subject,
            fields,
            count,
            labels,
            from,
        ),
    decreases count,
{
    if count > 0 {
        lemma_emit_fields_prefix(subject, fields, last, (count - 1) as nat, labels, from);
        lemma_fields_demand_prefix(fields, last, (count - 1) as nat);
    }
}

/// Each field of a table contributes its own triples, after those of the
/// fields before it, with the labels that those left over.
pub proof fn field_contributes_its_own_triples(
    node: NodeView,
    predicate: TermView,
    value: ValueView,
    subject: TermView,
    labels: Seq<Seq<char>>,
)
    ensures
        node_triples(node.with(predicate, value), subject, labels) == node_triples(
            node,
            subject,
            labels,
        ) + emit_value(
            subject,
            predicate,
            value,
            labels,
            fields_demand(node.fields, node.fields.len()),
        ),
        fields_demand(node.with(predicate, value).fields, node.with(predicate, value).fields.len())
            == fields_demand(node.fields, node.fields.len()) + value_demand(value),
{
    let last = FieldView { predicate, value };
    lemma_emit_fields_prefix(subject, node.fields, last, node.fields.len(), labels, 0);
    lemma_fields_demand_prefix(node.fields, last, node.fields.len());
}

/// An absent optional field produces no triple: the entity is described as
/// if the field were not in its table.
pub proof fn absent_field_produces_no_triple(
    node: NodeView,
    predicate: TermView,
    subject: TermView,
    labels: Seq<Seq<char>>,
)
    ensures
        emit_value(subject, predicate, ValueView::Absent, labels, 0).len() == 0,
        node_triples(node.with(predicate, ValueView::Absent), subject, labels) == node_triples(
            node,
            subject,
            labels,
        ),
{
    field_contributes_its_own_triples(node, predicate, ValueView::Absent, subject, labels);
    assert(node_triples(node, subject, labels) + Seq::<TripleView>::empty() =~= node_triples(
        node,
        subject,
        labels,
    ));
}

/// A scalar field produces exactly one triple: subject, predicate, value.
pub proof fn scalar_field_produces_one_triple(
    subject: TermView,
    predicate: TermView,
    term: TermView,
    labels: Seq<Seq<char>>,
    from: nat,
)
    ensures
        emit_value(subject, predicate, ValueView::Scalar(term), labels, from) == seq![
            TripleView { subject, predicate, object: term },
        ],
{
}

/// A nested entity produces the triple that ties it to its holder, then
/// its own description under its own term.
pub proof fn nested_entity_is_linked_then_described(
    subject: TermView,
    predicate: TermView,
    node: NodeView,
    labels: Seq<Seq<char>>,
    from: nat,
)
    ensures
        emit_value(subject, predicate, ValueView::Entity(Link::Forward, node), labels, from)
            == seq![
            TripleView {
                subject,
                predicate,
                object: node_subject(node.identity, labels, from),
            },
        ] + emit_fields(
            node_subject(node.identity, labels, from),
            node.fields,
            node.fields.len(),
            labels,
            from + identity_demand(node.identity),
        ),
{
}

/// A repeated field whose items produce `each` triples apiece produces
/// that many for every item: `count * each` for its first `count` items.
pub proof fn repeated_field_produces_triples_for_each_item(
    subject: TermView,
    predicate: TermView,
    items: Seq<ValueView>,
    count: nat,
    labels: Seq<Seq<char>>,
    from: nat,
    each: nat,
)
    requires
        count <= items.len(),
        forall|j: int|
            0 <= j < count ==> (#[trigger] emit_value(
                subject,
                predicate,
                items[j],
                labels,
                from + items_demand(items, j as nat),
            )).len() == each,
    ensures
        emit_items(subject, predicate, items, count, labels, from).len() == count * each,
    decreases count,
{
    if count > 0 {
        repeated_field_produces_triples_for_each_item(
            subject,
            predicate,
            items,
            (count - 1) as nat,
            labels,
            from,
            each,
        );
        let last = count - 1;
        assert(emit_value(
            subject,
            predicate,
            items[last],
            labels,
            from + items_demand(items, last as nat),
        ).len() == each);
        assert(count * each == (count - 1) * each + each) by (nonlinear_arith);
    } else {
        assert(0 * each == 0) by (nonlinear_arith);
    }
}

/// A repeated field of scalars produces one triple for each element, with
/// the field's predicate, in the order of the elements.
pub proof fn repeated_scalars_produce_one_triple_each(
    subject: TermView,
    predicate: TermView,
    terms: Seq<TermView>,
    count: nat,
    labels: Seq<Seq<char>>,
    from: nat,
)
    requires
        count <= terms.len(),
    ensures
        emit_items(
            subject,
            predicate,
            terms.map_values(|term: TermView| ValueView::Scalar(term)),
            count,
            labels,
            from,
        ) == Seq::new(
            count,
            |j: int| TripleView { subject, predicate, object: terms[j] },
        ),
    decreases count,
{
    let items = terms.map_values(|term: TermView| ValueView::Scalar(term));
    if count > 0 {
        repeated_scalars_produce_one_triple_each(
            subject,
            predicate,
            terms,
            (count - 1) as nat,
            labels,
            from,
        );
        assert(items[count - 1] == ValueView::Scalar(terms[count - 1]));
        let last = emit_value(
            subject,
            predicate,
            items[count - 1],
            labels,
            from + items_demand(items, (count - 1) as nat),
        );
        assert(last == seq![TripleView { subject, predicate, object: terms[count - 1] }]);
        assert(emit_items(subject, predicate, items, count, labels, from) == emit_items(
            subject,
            predicate,
            items,
            (count - 1) as nat,
            labels,
            from,
        ) + last);
        assert(emit_items(subject, predicate, items, count, labels, from) =~= Seq::new(
            count,
            |j: int| TripleView { subject, predicate, object: terms[j] },
        ));
    } else {
        assert(emit_items(subject, predicate, items, count, labels, from) =~= Seq::new(
            count,
            |j: int| TripleView { subject, predicate, object: terms[j] },
        ));
    }
}

/// An entity with a natural key has the same term whatever labels a run
/// hands out: documents built apart from each other agree on it.
pub proof fn keyed_entity_has_the_same_term_in_every_run(
    key: Seq<char>,
    first: Seq<Seq<char>>,
    first_from: nat,
    second: Seq<Seq<char>>,
    second_from: nat,
)
    ensures
        node_subject(IdentityView::Keyed(key), first, first_from) == node_subject(
            IdentityView::Keyed(key),
            second,
            second_from,
        ),
        node_subject(IdentityView::Keyed(key), first, first_from) == resource_iri(key),
{
}

/// The triples of the first fields of a table come first among the
/// triples of more of its fields.
pub proof fn lemma_emit_fields_extends(
    subject: TermView,
    fields: Seq<FieldView>,
    fewer: nat,
    more: nat,
    labels: Seq<Seq<char>>,
    from: nat,
)
    requires
        fewer <= more <= fields.len(),
    ensures
        emit_fields(subject, fields, fewer, labels, from).is_prefix_of(
            emit_fields(subject, fields, more, labels, from),
        ),
    decreases more,
{
    if fewer < more {
        lemma_emit_fields_extends(subject, fields, fewer, (more - 1) as nat, labels, from);
        let before = emit_fields(subject, fields, (more - 1) as nat, labels, from);
        let here = emit_value(
            subject,
            fields[more - 1].predicate,
            fields[more - 1].value,
            labels,
            from + fields_demand(fields, (more - 1) as nat),
        );
        assert(emit_fields(subject, fields, more, labels, from) == before + here);
        assert(before.is_prefix_of(before + here));
    }
}

/// An entity whose first field is a scalar is described first of all by
/// the triple of that field, under its own term. For an entity with a
/// natural key that triple is the same whatever labels a run hands out.
pub proof fn entity_is_described_first_by_its_first_field(
    node: NodeView,
    labels: Seq<Seq<char>>,
)
    requires
        node.fields.len() > 0,
        node.fields[0].value is Scalar,
    ensures
        entity_triples(node, labels).len() > 0,
        entity_triples(node, labels)[0] == (TripleView {
            subject: node_subject(node.identity, labels, 0),
            predicate: node.fields[0].predicate,
            object: node.fields[0].value->Scalar_0,
        }),
{
    let subject = node_subject(node.identity, labels, 0);
    let from = identity_demand(node.identity);
    lemma_emit_fields_extends(subject, node.fields, 1, node.fields.len(), labels, from);
    reveal_with_fuel(emit_fields, 2);
    let first = emit_fields(subject, node.fields, 1, labels, from);
    assert(first =~= seq![
        TripleView {
            subject,
            predicate: node.fields[0].predicate,
            object: node.fields[0].value->Scalar_0,
        },
    ]);
    assert(first.is_prefix_of(entity_triples(node, labels)));
    assert(entity_triples(node, labels)[0] == first[0]);
}

/// Every element of a repeated field of entities is tied to the holder by
/// a triple of its own: holder, predicate, the element's term. The term of
/// an element without a natural key is a blank node with a label of its
/// own, the one that the elements before it left first.
pub proof fn repeated_entities_are_linked_one_by_one(
    subject: TermView,
    predicate: TermView,
    nodes: Seq<NodeView>,
    count: nat,
    labels: Seq<Seq<char>>,
    from: nat,
    j: int,
)
    requires
        count <= nodes.len(),
        0 <= j < count,
    ensures
        emit_items(
            subject,
            predicate,
            nodes.map_values(|node: NodeView| ValueView::Entity(Link::Forward, node)),
            count,
            labels,
            from,
        ).contains(
            TripleView {
                subject,
                predicate,
                object: node_subject(
                    nodes[j].identity,
                    labels,
                    from + items_demand(
                        nodes.map_values(|node: NodeView| ValueView::Entity(Link::Forward, node)),
                        j as nat,
                    ),
                ),
            },
        ),
    decreases count,
{
    let items = nodes.map_values(|node: NodeView| ValueView::Entity(Link::Forward, node));
    let before = emit_items(subject, predicate, items, (count - 1) as nat, labels, from);
    let at = from + items_demand(items, (count - 1) as nat);
    let here = emit_value(subject, predicate, items[count - 1], labels, at);
    assert(emit_items(subject, predicate, items, count, labels, from) == before + here);
    if j == count - 1 {
        assert(items[j] == ValueView::Entity(Link::Forward, nodes[j]));
        let tie = TripleView {
            subject,
            predicate,
            object: node_subject(nodes[j].identity, labels, at),
        };
        assert(here[0] == tie);
        assert((before + here)[before.len() as int] == tie);
    } else {
        repeated_entities_are_linked_one_by_one(
            subject,
            predicate,
            nodes,
            (count - 1) as nat,
            labels,
            from,
            j,
        );
        let tie = TripleView {
            subject,
            predicate,
            object: node_subject(
                nodes[j].identity,
                labels,
                from + items_demand(items, j as nat),
            ),
        };
        let k = choose|k: int| 0 <= k < before.len() && before[k] == tie;
        assert((before + here)[k] == tie);
    }
}

/// An empty repeated field produces no triple.
pub proof fn empty_repeated_field_produces_no_triple(
    subject: TermView,
    predicate: TermView,
    labels: Seq<Seq<char>>,
    from: nat,
)
    ensures
        emit_value(subject, predicate, ValueView::Repeated(Seq::empty()), labels, from).len() == 0,
{
}

} // verus!
