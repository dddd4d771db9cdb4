use catplus::error::GraphError;
use catplus::emission::count_fields;
use catplus::emission::count_value;
use catplus::insert_into::attach_into;
use catplus::insert_into::flatten;
use catplus::insert_into::insert_node;
use catplus::insert_into::insert_node_with;
use catplus::insert_into::mint_labels;
use catplus::node::unlinked;
use catplus::node::Link;
use catplus::node::Node;
use catplus::node::Value;
use catplus::store::TripleStore;
use catplus::term::Term;
use catplus::term::Triple;
use catplus::vocab::cat;
use catplus::vocab::plain_literal;
use catplus::vocab::rdf_type;

fn subject() -> Term {
    Term::iri("http://example.org/subject")
}

fn labels(texts: &[&str]) -> Vec<String> {
    texts.iter().map(|t| t.to_string()).collect()
}

fn plate(id: &str) -> Node {
    let mut node = Node::anonymous();
    node.attach(rdf_type(), Value::term(cat("Plate")));
    node.attach(cat("containerID"), Value::text(id));
    node
}

#[test]
fn scalar_field_gives_one_triple() {
    let mut node = Node::anonymous();
    node.attach(cat("role"), Value::text("solvent"));
    let triples = flatten(&node, &subject(), &vec![]).unwrap();
    assert_eq!(triples, vec![Triple::new(subject(), cat("role"), plain_literal("solvent"))]);
}

#[test]
fn absent_field_gives_no_triple() {
    let mut node = Node::anonymous();
    node.attach(cat("role"), Value::text("solvent"));
    node.attach(cat("containerBarcode"), Value::optional_text(&None));
    node.attach(cat("order"), Value::Absent);
    let triples = flatten(&node, &subject(), &vec![]).unwrap();
    assert_eq!(triples.len(), 1);
    assert!(triples.iter().all(|t| t.predicate != cat("containerBarcode")));
}

#[test]
fn present_optional_field_gives_its_triple() {
    let mut node = Node::anonymous();
    node.attach(cat("containerBarcode"), Value::optional_text(&Some("17".to_string())));
    let triples = flatten(&node, &subject(), &vec![]).unwrap();
    assert_eq!(triples, vec![Triple::new(subject(), cat("containerBarcode"), plain_literal("17"))]);
}

#[test]
fn typed_literal_keeps_its_datatype() {
    let mut node = Node::anonymous();
    node.attach(cat("value"), Value::typed("0.5", "double"));
    let triples = flatten(&node, &subject(), &vec![]).unwrap();
    assert_eq!(
        triples,
        vec![Triple::new(
            subject(),
            cat("value"),
            Term::literal("0.5", "http://www.w3.org/2001/XMLSchema#double")
        )]
    );
}

#[test]
fn nested_entity_is_linked_and_described() {
    let mut node = Node::anonymous();
    node.attach(cat("hasPlate"), Value::Entity(Link::Forward, plate("7")));
    let triples = flatten(&node, &subject(), &labels(&["b0"])).unwrap();
    assert_eq!(
        triples,
        vec![
            Triple::new(subject(), cat("hasPlate"), Term::blank_node("b0")),
            Triple::new(Term::blank_node("b0"), rdf_type(), cat("Plate")),
            Triple::new(Term::blank_node("b0"), cat("containerID"), plain_literal("7")),
        ]
    );
}

#[test]
fn keyed_entity_takes_no_label() {
    let mut chemical = Node::keyed("1S/H2O/h1H2");
    chemical.attach(cat("casNumber"), Value::text("7732-18-5"));
    let mut node = Node::anonymous();
    node.attach(cat("hasChemical"), Value::Entity(Link::Forward, chemical));
    let water = Term::iri("http://example.org/cat/resource/REbPn8oEMuCNjy8IqbupevT1Q_MUxGpALI21Ckz1fv8");
    let triples = flatten(&node, &subject(), &vec![]).unwrap();
    assert_eq!(
        triples,
        vec![
            Triple::new(subject(), cat("hasChemical"), water.clone()),
            Triple::new(water, cat("casNumber"), plain_literal("7732-18-5")),
        ]
    );
}

#[test]
fn reverse_link_points_back_to_the_holder() {
    let mut node = Node::anonymous();
    node.attach(cat("hasBatch"), Value::Entity(Link::Reverse, plate("7")));
    let triples = flatten(&node, &subject(), &labels(&["b0"])).unwrap();
    assert_eq!(triples[0], Triple::new(Term::blank_node("b0"), cat("hasBatch"), subject()));
    assert_eq!(triples.len(), 3);
}

#[test]
fn detached_entity_has_no_link() {
    let mut node = Node::anonymous();
    node.attach(unlinked(), Value::Entity(Link::Detached, plate("7")));
    let triples = flatten(&node, &subject(), &labels(&["b0"])).unwrap();
    assert_eq!(
        triples,
        vec![
            Triple::new(Term::blank_node("b0"), rdf_type(), cat("Plate")),
            Triple::new(Term::blank_node("b0"), cat("containerID"), plain_literal("7")),
        ]
    );
}

#[test]
fn repeated_scalars_give_one_triple_each() {
    let mut node = Node::anonymous();
    node.attach(
        cat("role"),
        Value::repeated(vec![Value::text("a"), Value::text("b"), Value::text("c")]),
    );
    let triples = flatten(&node, &subject(), &vec![]).unwrap();
    assert_eq!(
        triples,
        vec![
            Triple::new(subject(), cat("role"), plain_literal("a")),
            Triple::new(subject(), cat("role"), plain_literal("b")),
            Triple::new(subject(), cat("role"), plain_literal("c")),
        ]
    );
}

#[test]
fn repeated_entities_give_their_triples_each() {
    let mut node = Node::anonymous();
    node.attach(
        cat("hasPlate"),
        Value::repeated(vec![
            Value::Entity(Link::Forward, plate("1")),
            Value::Entity(Link::Forward, plate("2")),
        ]),
    );
    let triples = flatten(&node, &subject(), &labels(&["x", "y"])).unwrap();
    assert_eq!(triples.len(), 2 * 3);
    assert_eq!(triples[0], Triple::new(subject(), cat("hasPlate"), Term::blank_node("x")));
    assert_eq!(triples[3], Triple::new(subject(), cat("hasPlate"), Term::blank_node("y")));
    assert_eq!(triples[5], Triple::new(Term::blank_node("y"), cat("containerID"), plain_literal("2")));
}

#[test]
fn empty_repeated_field_gives_no_triple() {
    let mut node = Node::anonymous();
    node.attach(cat("hasPlate"), Value::repeated(vec![]));
    assert_eq!(flatten(&node, &subject(), &vec![]).unwrap(), vec![]);
}

#[test]
fn labels_are_taken_in_the_order_of_the_table() {
    let mut inner = plate("1");
    inner.attach(cat("hasPlate"), Value::Entity(Link::Forward, plate("2")));
    let mut node = Node::anonymous();
    node.attach(cat("first"), Value::Entity(Link::Forward, inner));
    node.attach(cat("second"), Value::Entity(Link::Forward, plate("3")));
    let triples = flatten(&node, &subject(), &labels(&["l0", "l1", "l2", "unused"])).unwrap();
    assert_eq!(triples.len(), 9);
    assert_eq!(triples[0], Triple::new(subject(), cat("first"), Term::blank_node("l0")));
    assert_eq!(triples[3], Triple::new(Term::blank_node("l0"), cat("hasPlate"), Term::blank_node("l1")));
    assert_eq!(triples[6], Triple::new(subject(), cat("second"), Term::blank_node("l2")));
    assert_eq!(count_fields(&node.fields), Some(3));
}

#[test]
fn too_few_labels_give_nothing() {
    let mut node = Node::anonymous();
    node.attach(cat("hasPlate"), Value::Entity(Link::Forward, plate("7")));
    assert_eq!(flatten(&node, &subject(), &vec![]), None);
    let mut store = TripleStore::new();
    assert_eq!(insert_node_with(&mut store, &node, &subject(), &vec![]), Err(GraphError::LabelShortage));
    assert_eq!(store.len(), Ok(0));
}

#[test]
fn counting_follows_the_shape() {
    assert_eq!(count_value(&Value::Absent), Some(0));
    assert_eq!(count_value(&Value::text("a")), Some(0));
    assert_eq!(count_value(&Value::Entity(Link::Forward, plate("1"))), Some(1));
    assert_eq!(count_value(&Value::Entity(Link::Forward, Node::keyed("k"))), Some(0));
    assert_eq!(
        count_value(&Value::repeated(vec![
            Value::Entity(Link::Forward, plate("1")),
            Value::text("a"),
            Value::Entity(Link::Detached, plate("2")),
        ])),
        Some(2)
    );
}

#[test]
fn minted_labels_are_as_many_as_asked_and_distinct() {
    let labels = mint_labels(5);
    assert_eq!(labels.len(), 5);
    for i in 0..5 {
        for j in 0..i {
            assert_ne!(labels[i], labels[j]);
        }
    }
    assert_eq!(mint_labels(0).len(), 0);
}

#[test]
fn insertion_with_labels_writes_the_flattened_triples() {
    let mut node = Node::anonymous();
    node.attach(cat("hasPlate"), Value::Entity(Link::Forward, plate("7")));
    let mut store = TripleStore::new();
    assert_eq!(insert_node_with(&mut store, &node, &subject(), &labels(&["b0"])), Ok(()));
    let listed = store.triples().unwrap();
    assert_eq!(listed.len(), 3);
    for triple in flatten(&node, &subject(), &labels(&["b0"])).unwrap() {
        assert!(listed.contains(&triple));
    }
    assert_eq!(insert_node_with(&mut store, &node, &subject(), &labels(&["b0"])), Ok(()));
    assert_eq!(store.len(), Ok(3));
}

#[test]
fn insertion_with_a_bad_label_writes_nothing() {
    let mut node = Node::anonymous();
    node.attach(cat("role"), Value::text("kept out"));
    node.attach(cat("hasPlate"), Value::Entity(Link::Forward, plate("7")));
    let mut store = TripleStore::new();
    assert_eq!(
        insert_node_with(&mut store, &node, &subject(), &labels(&["not a label"])),
        Err(GraphError::InvalidTerm)
    );
    assert_eq!(store.len(), Ok(0));
}

#[test]
fn insertion_with_fresh_labels_writes_as_many_triples() {
    let mut node = Node::anonymous();
    node.attach(cat("hasPlate"), Value::Entity(Link::Forward, plate("7")));
    node.attach(cat("other"), Value::Entity(Link::Forward, plate("7")));
    let mut store = TripleStore::new();
    assert_eq!(insert_node(&mut store, &node, &subject()), Ok(()));
    let listed = store.triples().unwrap();
    assert_eq!(listed.len(), 6);
    let blank: Vec<&Triple> = listed.iter().filter(|t| t.object.is_blank_node()).collect();
    assert_eq!(blank.len(), 2);
    assert_ne!(blank[0].object, blank[1].object);
}

#[test]
fn attaching_follows_the_shape_of_the_value() {
    let mut store = TripleStore::new();
    assert_eq!(attach_into(&mut store, &subject(), &cat("order"), &Value::Absent), Ok(()));
    assert_eq!(store.len(), Ok(0));
    assert_eq!(attach_into(&mut store, &subject(), &cat("role"), &Value::text("a")), Ok(()));
    assert_eq!(store.triples(), Ok(vec![Triple::new(subject(), cat("role"), plain_literal("a"))]));
    let nested = Value::Entity(Link::Forward, plate("7"));
    assert_eq!(attach_into(&mut store, &subject(), &cat("hasPlate"), &nested), Ok(()));
    assert_eq!(store.len(), Ok(1 + 3));
    let repeated = Value::repeated(vec![Value::text("b"), Value::text("c"), Value::text("a")]);
    assert_eq!(attach_into(&mut store, &subject(), &cat("role"), &repeated), Ok(()));
    assert_eq!(store.len(), Ok(1 + 3 + 2));
}

#[test]
fn attaching_a_bad_term_writes_nothing() {
    let mut store = TripleStore::new();
    let bad = Value::term(Term::iri("not an iri"));
    assert_eq!(attach_into(&mut store, &subject(), &cat("role"), &bad), Err(GraphError::InvalidTerm));
    assert_eq!(store.len(), Ok(0));
}
