use catplus::error::GraphError;
use catplus::store::TripleStore;
use catplus::term::Term;
use catplus::term::Triple;

fn statement(s: &str, p: &str, o: &str) -> Triple {
    Triple::new(Term::iri(s), Term::iri(p), Term::literal(o, "http://www.w3.org/2001/XMLSchema#string"))
}

#[test]
fn new_store_is_empty() {
    let store = TripleStore::new();
    assert_eq!(store.len(), Ok(0));
    assert_eq!(store.triples(), Ok(vec![]));
}

#[test]
fn insert_tells_whether_the_triple_was_new() {
    let mut store = TripleStore::new();
    let triple = statement("http://example.org/s", "http://example.org/p", "o");
    assert_eq!(store.insert(&triple), Ok(true));
    assert_eq!(store.insert(&triple), Ok(false));
}

#[test]
fn inserting_twice_leaves_the_count_unchanged() {
    let mut store = TripleStore::new();
    let triple = statement("http://example.org/s", "http://example.org/p", "o");
    store.insert(&triple).unwrap();
    assert_eq!(store.len(), Ok(1));
    store.insert(&triple).unwrap();
    assert_eq!(store.len(), Ok(1));
    assert_eq!(store.triples(), Ok(vec![triple]));
}

#[test]
fn store_hands_back_what_was_put_in() {
    let mut store = TripleStore::new();
    let first = Triple::new(
        Term::blank_node("b1"),
        Term::iri("http://example.org/p"),
        Term::literal("42", "http://www.w3.org/2001/XMLSchema#double"),
    );
    let second = Triple::new(
        Term::iri("http://example.org/s"),
        Term::iri("http://example.org/p"),
        Term::blank_node("b1"),
    );
    store.insert(&first).unwrap();
    store.insert(&second).unwrap();
    let listed = store.triples().unwrap();
    assert_eq!(listed.len(), 2);
    assert!(listed.contains(&first));
    assert!(listed.contains(&second));
    assert_eq!(store.contains(&first), Ok(true));
    assert_eq!(store.contains(&statement("http://example.org/s", "http://example.org/p", "x")), Ok(false));
}

#[test]
fn literals_with_different_datatypes_are_different_triples() {
    let mut store = TripleStore::new();
    let s = Term::iri("http://example.org/s");
    let p = Term::iri("http://example.org/p");
    store
        .insert(&Triple::new(s.clone(), p.clone(), Term::literal("1", "http://www.w3.org/2001/XMLSchema#double")))
        .unwrap();
    store
        .insert(&Triple::new(s.clone(), p.clone(), Term::literal("1", "http://www.w3.org/2001/XMLSchema#string")))
        .unwrap();
    assert_eq!(store.len(), Ok(2));
}

#[test]
fn an_iri_with_a_space_is_refused() {
    let mut store = TripleStore::new();
    let bad = statement("http://example.org/a b", "http://example.org/p", "o");
    assert!(!bad.is_well_formed());
    assert_eq!(store.insert(&bad), Err(GraphError::InvalidTerm));
    assert_eq!(store.len(), Ok(0));
}

#[test]
fn a_blank_node_label_with_a_space_is_refused() {
    let mut store = TripleStore::new();
    let bad = Triple::new(
        Term::blank_node("not a label"),
        Term::iri("http://example.org/p"),
        Term::iri("http://example.org/o"),
    );
    assert_eq!(store.insert(&bad), Err(GraphError::InvalidTerm));
    assert_eq!(store.len(), Ok(0));
}

#[test]
fn a_literal_with_a_bad_datatype_is_refused() {
    let mut store = TripleStore::new();
    let bad = Triple::new(
        Term::iri("http://example.org/s"),
        Term::iri("http://example.org/p"),
        Term::literal("x", "no datatype <>"),
    );
    assert_eq!(store.insert(&bad), Err(GraphError::InvalidTerm));
}

#[test]
fn a_batch_with_a_bad_triple_writes_nothing() {
    let mut store = TripleStore::new();
    let good = statement("http://example.org/s", "http://example.org/p", "o");
    let bad = statement("http://example.org/a b", "http://example.org/p", "o");
    assert_eq!(store.insert_all(&vec![good.clone(), bad]), Err(GraphError::InvalidTerm));
    assert_eq!(store.len(), Ok(0));
    assert_eq!(store.insert_all(&vec![good.clone(), good.clone()]), Ok(()));
    assert_eq!(store.triples(), Ok(vec![good]));
}

#[test]
fn terms_are_compared_by_kind_and_text() {
    assert!(Term::iri("a").same(&Term::iri("a")));
    assert!(!Term::iri("a").same(&Term::blank_node("a")));
    assert!(!Term::iri("a").same(&Term::iri("b")));
    assert!(Term::literal("1", "d").same(&Term::literal("1", "d")));
    assert!(!Term::literal("1", "d").same(&Term::literal("1", "e")));
    assert!(Term::iri("a").is_iri());
    assert!(Term::blank_node("a").is_blank_node());
    assert!(Term::literal("a", "d").is_literal());
    assert!(!Term::literal("a", "d").is_iri());
}

#[test]
fn error_messages_name_the_failure() {
    assert_eq!(GraphError::IdentityAmbiguity.message(), "Multiple triples found for contentURL insertion");
    assert_eq!(GraphError::UnsupportedTerm.message(), "Subject must be either an IRI or a BlankNode");
    assert_eq!(GraphError::StoreFull.message(), "The triple store cannot contain more terms");
    assert_eq!(GraphError::InvalidTerm.message(), "A term is not acceptable to the triple store");
    assert_eq!(GraphError::Serialization.message(), "Failed to serialize graph");
    assert_eq!(GraphError::LabelShortage.message(), "Not enough labels for the blank nodes of an entity");
}

#[test]
fn an_empty_batch_is_written_with_success() {
    let mut store = TripleStore::new();
    assert_eq!(store.insert_all(&vec![]), Ok(()));
    assert_eq!(store.len(), Ok(0));
}

#[test]
fn matching_gives_the_triples_that_fit_the_pattern() {
    let mut store = TripleStore::new();
    let s1 = Term::iri("http://example.org/s1");
    let s2 = Term::iri("http://example.org/s2");
    let p = Term::iri("http://example.org/p");
    let q = Term::iri("http://example.org/q");
    let o = Term::literal("o", "http://www.w3.org/2001/XMLSchema#string");
    let first = Triple::new(s1.clone(), p.clone(), o.clone());
    let second = Triple::new(s1.clone(), q.clone(), s2.clone());
    let third = Triple::new(s2.clone(), p.clone(), o.clone());
    for triple in [&first, &second, &third] {
        store.insert(triple).unwrap();
    }
    assert_eq!(store.matching(None, None, None).unwrap().len(), 3);
    assert_eq!(store.matching(Some(&s1), Some(&q), Some(&s2)), Ok(vec![second.clone()]));
    let by_subject = store.matching(Some(&s1), None, None).unwrap();
    assert_eq!(by_subject.len(), 2);
    assert!(by_subject.contains(&first) && by_subject.contains(&second));
    let by_predicate = store.matching(None, Some(&p), None).unwrap();
    assert_eq!(by_predicate.len(), 2);
    assert!(by_predicate.contains(&first) && by_predicate.contains(&third));
    let by_object = store.matching(None, None, Some(&o)).unwrap();
    assert_eq!(by_object.len(), 2);
    assert_eq!(store.matching(Some(&s2), Some(&q), None), Ok(vec![]));
    assert_eq!(store.matching(None, None, Some(&Term::blank_node("s2"))), Ok(vec![]));
}

#[test]
fn a_new_store_takes_every_well_formed_triple() {
    for i in 0..100 {
        let mut store = TripleStore::new();
        let triple = statement(&format!("http://example.org/s{}", i), "http://example.org/p", "o");
        assert_eq!(store.insert(&triple), Ok(true));
        assert_eq!(store.insert(&triple), Ok(false));
        assert_eq!(store.insert_all(&vec![triple.clone(), triple]), Ok(()));
    }
}
