//! The namespaces of the ontology and the terms built in them.

use vstd::prelude::*;
use vstd::string::StringExecFns;
use crate::term::Term;
use crate::term::TermView;

verus! {

/// The IRI made of a namespace and a local name.
pub open spec fn namespaced(namespace: Seq<char>, local: Seq<char>) -> TermView {
    TermView::Iri(namespace + local)
}

/// Builds the IRI made of a namespace and a local name.
pub fn in_namespace(namespace: &str, local: &str) -> (term: Term)
    ensures
        term@ == namespaced(namespace@, local@),
{
    let mut text = String::from_str(namespace);
    text.append(local);
    Term::Iri(text)
}

pub open spec fn rdf_iri(local: Seq<char>) -> TermView {
    namespaced("http://www.w3.org/1999/02/22-rdf-syntax-ns#"@, local)
}

pub fn rdf(local: &str) -> (term: Term)
    ensures
        term@ == rdf_iri(local@),
{
    in_namespace("http://www.w3.org/1999/02/22-rdf-syntax-ns#", local)
}

pub open spec fn xsd_iri(local: Seq<char>) -> TermView {
    namespaced("http://www.w3.org/2001/XMLSchema#"@, local)
}

pub fn xsd(local: &str) -> (term: Term)
    ensures
        term@ == xsd_iri(local@),
{
    in_namespace("http://www.w3.org/2001/XMLSchema#", local)
}

pub open spec fn cat_iri(local: Seq<char>) -> TermView {
    namespaced("http://example.org/catplus/ontology/"@, local)
}

pub fn cat(local: &str) -> (term: Term)
    ensures
        term@ == cat_iri(local@),
{
    in_namespace("http://example.org/catplus/ontology/", local)
}

pub open spec fn cat_resource_iri(local: Seq<char>) -> TermView {
    namespaced("http://example.org/cat/resource/"@, local)
}

pub fn cat_resource(local: &str) -> (term: Term)
    ensures
        term@ == cat_resource_iri(local@),
{
    in_namespace("http://example.org/cat/resource/", local)
}

pub open spec fn schema_iri(local: Seq<char>) -> TermView {
    namespaced("https://schema.org/"@, local)
}

pub fn schema(local: &str) -> (term: Term)
    ensures
        term@ == schema_iri(local@),
{
    in_namespace("https://schema.org/", local)
}

pub open spec fn unit_iri(local: Seq<char>) -> TermView {
    namespaced("http://qudt.org/vocab/unit/"@, local)
}

pub fn unit(local: &str) -> (term: Term)
    ensures
        term@ == unit_iri(local@),
{
    in_namespace("http://qudt.org/vocab/unit/", local)
}

pub open spec fn qudt_iri(local: Seq<char>) -> TermView {
    namespaced("http://qudt.org/schema/qudt/"@, local)
}

pub fn qudt(local: &str) -> (term: Term)
    ensures
        term@ == qudt_iri(local@),
{
    in_namespace("http://qudt.org/schema/qudt/", local)
}

pub open spec fn qudtext_iri(local: Seq<char>) -> TermView {
    namespaced("http://purl.allotrope.org/ontology/qudt-ext/unit#"@, local)
}

pub fn qudtext(local: &str) -> (term: Term)
    ensures
        term@ == qudtext_iri(local@),
{
    in_namespace("http://purl.allotrope.org/ontology/qudt-ext/unit#", local)
}

pub open spec fn allores_iri(local: Seq<char>) -> TermView {
    namespaced("http://purl.allotrope.org/ontologies/result#"@, local)
}

pub fn allores(local: &str) -> (term: Term)
    ensures
        term@ == allores_iri(local@),
{
    in_namespace("http://purl.allotrope.org/ontologies/result#", local)
}

pub open spec fn alloproc_iri(local: Seq<char>) -> TermView {
    namespaced("http://purl.allotrope.org/ontologies/process#"@, local)
}

pub fn alloproc(local: &str) -> (term: Term)
    ensures
        term@ == alloproc_iri(local@),
{
    in_namespace("http://purl.allotrope.org/ontologies/process#", local)
}

pub open spec fn alloprop_iri(local: Seq<char>) -> TermView {
    namespaced("http://purl.allotrope.org/ontologies/property#"@, local)
}

pub fn alloprop(local: &str) -> (term: Term)
    ensures
        term@ == alloprop_iri(local@),
{
    in_namespace("http://purl.allotrope.org/ontologies/property#", local)
}

pub open spec fn alloqual_iri(local: Seq<char>) -> TermView {
    namespaced("http://purl.allotrope.org/ontologies/quality#"@, local)
}

pub fn alloqual(local: &str) -> (term: Term)
    ensures
        term@ == alloqual_iri(local@),
{
    in_namespace("http://purl.allotrope.org/ontologies/quality#", local)
}

pub open spec fn purl_iri(local: Seq<char>) -> TermView {
    namespaced("http://purl.allotrope.org/ontologies/"@, local)
}

pub fn purl(local: &str) -> (term: Term)
    ensures
        term@ == purl_iri(local@),
{
    in_namespace("http://purl.allotrope.org/ontologies/", local)
}

pub open spec fn obo_iri(local: Seq<char>) -> TermView {
    namespaced("http://purl.obolibrary.org/obo/"@, local)
}

pub fn obo(local: &str) -> (term: Term)
    ensures
        term@ == obo_iri(local@),
{
    in_namespace("http://purl.obolibrary.org/obo/", local)
}

/// `rdf:type`.
pub open spec fn rdf_type_iri() -> TermView {
    rdf_iri("type"@)
}

pub fn rdf_type() -> (term: Term)
    ensures
        term@ == rdf_type_iri(),
{
    rdf("type")
}

/// The literal with a datatype of XML Schema.
pub open spec fn xsd_literal(lexical: Seq<char>, datatype: Seq<char>) -> TermView {
    TermView::Literal {
        lexical,
        datatype: "http://www.w3.org/2001/XMLSchema#"@ + datatype,
    }
}

/// Builds the literal with a datatype of XML Schema.
pub fn typed_literal(lexical: &str, datatype: &str) -> (term: Term)
    ensures
        term@ == xsd_literal(lexical@, datatype@),
{
    let mut text = String::from_str("http://www.w3.org/2001/XMLSchema#");
    text.append(datatype);
    Term::Literal { lexical: String::from_str(lexical), datatype: text }
}

/// The plain string literal.
pub open spec fn string_literal(text: Seq<char>) -> TermView {
    xsd_literal(text, "string"@)
}

pub fn plain_literal(text: &str) -> (term: Term)
    ensures
        term@ == string_literal(text@),
{
    typed_literal(text, "string")
}

/// The prefixes under which Turtle output abbreviates IRIs, in order.
pub open spec fn prefix_names() -> Seq<Seq<char>> {
    seq![
        "rdf"@,
        "xsd"@,
        "cat"@,
        "schema"@,
        "unit"@,
        "allores"@,
        "allorole"@,
        "alloproc"@,
        "alloprop"@,
        "allocom"@,
        "allohdf"@,
        "allohdfcube"@,
        "qb"@,
        "qudt"@,
        "qudtext"@,
        "alloqual"@,
        "allodc"@,
        "purl"@,
        "obo"@,
    ]
}

/// The namespaces that the prefixes stand for, in the same order.
pub open spec fn prefix_namespaces() -> Seq<Seq<char>> {
    seq![
        "http://www.w3.org/1999/02/22-rdf-syntax-ns#"@,
        "http://www.w3.org/2001/XMLSchema#"@,
        "http://example.org/catplus/ontology/"@,
        "https://schema.org/"@,
        "http://qudt.org/vocab/unit/"@,
        "http://purl.allotrope.org/ontologies/result#"@,
        "http://purl.allotrope.org/ontologies/role#"@,
        "http://purl.allotrope.org/ontologies/process#"@,
        "http://purl.allotrope.org/ontologies/property#"@,
        "http://purl.allotrope.org/ontologies/common#"@,
        "http://purl.allotrope.org/ontologies/hdf5/1.8#"@,
        "http://purl.allotrope.org/ontologies/datacube-hdf-map#"@,
        "http://purl.org/linked-data/cube#"@,
        "http://qudt.org/schema/qudt/"@,
        "http://purl.allotrope.org/ontology/qudt-ext/unit#"@,
        "http://purl.allotrope.org/ontologies/quality#"@,
        "http://purl.allotrope.org/ontologies/datacube#"@,
        "http://purl.allotrope.org/ontologies/"@,
        "http://purl.obolibrary.org/obo/"@,
    ]
}

/// The prefixes paired with their namespaces, in order.
pub open spec fn prefix_pairs() -> Seq<(Seq<char>, Seq<char>)> {
    Seq::new(prefix_names().len(), |i: int| (prefix_names()[i], prefix_namespaces()[i]))
}

/// The texts of a table of prefixes and namespaces.
pub open spec fn prefix_views(table: Seq<(&'static str, &'static str)>) -> Seq<
    (Seq<char>, Seq<char>),
> {
    table.map_values(|pair: (&'static str, &'static str)| (pair.0@, pair.1@))
}

/// The prefixes with their namespaces, as the Turtle serializer takes
/// them.
pub fn prefix_table() -> (table: Vec<(&'static str, &'static str)>)
    ensures
        prefix_views(table@) == prefix_pairs(),
{
    let mut table: Vec<(&'static str, &'static str)> = Vec::new();
    table.push(("rdf", "http://www.w3.org/1999/02/22-rdf-syntax-ns#"));
    table.push(("xsd", "http://www.w3.org/2001/XMLSchema#"));
    table.push(("cat", "http://example.org/catplus/ontology/"));
    table.push(("schema", "https://schema.org/"));
    table.push(("unit", "http://qudt.org/vocab/unit/"));
    table.push(("allores", "http://purl.allotrope.org/ontologies/result#"));
    table.push(("allorole", "http://purl.allotrope.org/ontologies/role#"));
    table.push(("alloproc", "http://purl.allotrope.org/ontologies/process#"));
    table.push(("alloprop", "http://purl.allotrope.org/ontologies/property#"));
    table.push(("allocom", "http://purl.allotrope.org/ontologies/common#"));
    table.push(("allohdf", "http://purl.allotrope.org/ontologies/hdf5/1.8#"));
    table.push(("allohdfcube", "http://purl.allotrope.org/ontologies/datacube-hdf-map#"));
    table.push(("qb", "http://purl.org/linked-data/cube#"));
    table.push(("qudt", "http://qudt.org/schema/qudt/"));
    table.push(("qudtext", "http://purl.allotrope.org/ontology/qudt-ext/unit#"));
    table.push(("alloqual", "http://purl.allotrope.org/ontologies/quality#"));
    table.push(("allodc", "http://purl.allotrope.org/ontologies/datacube#"));
    table.push(("purl", "http://purl.allotrope.org/ontologies/"));
    table.push(("obo", "http://purl.obolibrary.org/obo/"));
    assert(prefix_views(table@) =~= prefix_pairs());
    table
}

} // verus!
