//! How an entity gets its term: a stable IRI derived from a natural key, or
//! a blank node with a random label.

use vstd::prelude::*;
use vstd::string::StringExecFns;
use vstd::string::StringSliceAdditionalSpecFns;
use base64::Engine;
use sha2::Digest;
use crate::term::Term;
use crate::term::TermView;
use crate::term::bnode_label_accepted;
use crate::vocab::cat_resource;
use crate::vocab::cat_resource_iri;

verus! {

/// The SHA-256 digest of a byte string.
pub uninterp spec fn sha256_digest(data: Seq<u8>) -> Seq<u8>;

/// The base64 text of a byte string in the URL-safe alphabet, without
/// padding.
pub uninterp spec fn base64_url_text(data: Seq<u8>) -> Seq<char>;

/// `sha2::Sha256`, fed `data` once and finalized: the SHA-256 digest, which
/// has 32 bytes.
#[verifier::external_body]
fn sha256(data: &[u8]) -> (digest: Vec<u8>)
    ensures
        digest@ == sha256_digest(data@),
        digest@.len() == 32,
{
    let mut hasher = sha2::Sha256::new();
    hasher.update(data);
    hasher.finalize().to_vec()
}

/// A character of the URL-safe base64 alphabet: a letter, a digit, a
/// hyphen or an underscore.
pub open spec fn is_url_safe(c: char) -> bool {
    ('A' <= c && c <= 'Z') || ('a' <= c && c <= 'z') || ('0' <= c && c <= '9') || c == '-' || c
        == '_'
}

/// `Engine::encode` of `base64::engine::general_purpose::URL_SAFE_NO_PAD`.
/// The bound keeps the length of the output within `usize`, where the
/// encoder would otherwise panic. Without padding, the text has four
/// characters for every three bytes, rounded up, each from the URL-safe
/// alphabet.
#[verifier::external_body]
fn base64_url(data: &[u8]) -> (text: String)
    requires
        data@.len() <= 0x3fff_ffff,
    ensures
        text@ == base64_url_text(data@),
        text@.len() == (4 * data@.len() + 2) / 3,
        forall|i: int| 0 <= i < text@.len() ==> is_url_safe(#[trigger] text@[i]),
{
    base64::engine::general_purpose::URL_SAFE_NO_PAD.encode(data)
}

/// A digit of lower-case hexadecimal notation.
pub open spec fn is_lower_hex(c: char) -> bool {
    ('0' <= c && c <= '9') || ('a' <= c && c <= 'f')
}

/// The text of a random UUID: 36 characters in five groups of lower-case
/// hexadecimal digits, with hyphens between the groups, the version digit 4
/// and a variant digit from 8 to b.
pub open spec fn is_uuid_text(text: Seq<char>) -> bool {
    &&& text.len() == 36
    &&& forall|i: int|
        0 <= i < 36 ==> if i == 8 || i == 13 || i == 18 || i == 23 {
            #[trigger] text[i] == '-'
        } else {
            is_lower_hex(text[i])
        }
    &&& text[14] == '4'
    &&& (text[19] == '8' || text[19] == '9' || text[19] == 'a' || text[19] == 'b')
}

/// `Uuid::new_v4` of `uuid`, in the text form that `to_string` gives:
/// hyphenated and in lower case, as of every UUID, with the version and
/// variant digits of a random one. Which UUID it is, is left to chance.
/// Such a text begins with a digit or a letter and goes on with digits,
/// letters and hyphens: `BnodeId::new` of `sophia_api` takes every text
/// of that shape as a blank node label.
#[verifier::external_body]
fn random_uuid_text() -> (text: String)
    ensures
        is_uuid_text(text@),
        bnode_label_accepted(text@),
{
    uuid::Uuid::new_v4().to_string()
}

/// The text that stands for an identifier in a resource IRI: its UTF-8
/// bytes, digested and encoded.
pub open spec fn hash_text(identifier: Seq<char>) -> Seq<char> {
    base64_url_text(sha256_digest(vstd::utf8::encode_utf8(identifier)))
}

/// Hashes an arbitrary identifier into URL-safe base64 text: 43
/// characters, whatever the identifier.
pub fn hash_identifier(identifier: &str) -> (text: String)
    ensures
        text@ == hash_text(identifier@),
        text@.len() == 43,
        forall|i: int| 0 <= i < text@.len() ==> is_url_safe(#[trigger] text@[i]),
{
    let digest = sha256(identifier.as_bytes());
    base64_url(digest.as_slice())
}

/// The IRI of the entity whose natural key is `key`.
pub open spec fn resource_iri(key: Seq<char>) -> TermView {
    cat_resource_iri(hash_text(key))
}

/// The stable IRI of the entity with the given natural key.
pub fn generate_resource_identifier_uri(resource_id: String) -> (term: Term)
    ensures
        term@ == resource_iri(resource_id@),
{
    let hashed = hash_identifier(resource_id.as_str());
    cat_resource(hashed.as_str())
}

/// A fresh random label for a blank node: the text of a random UUID. Two
/// calls may give any two such texts.
pub fn generate_bnode_label() -> (label: String)
    ensures
        is_uuid_text(label@),
        bnode_label_accepted(label@),
{
    random_uuid_text()
}

/// A blank node with a fresh random label: the text of a random UUID.
pub fn generate_bnode_term() -> (term: Term)
    ensures
        term@ matches TermView::BlankNode(label) && is_uuid_text(label),
        term@.well_formed(),
{
    Term::BlankNode(generate_bnode_label())
}

/// One natural key has one IRI: equal keys give equal IRIs, whenever and
/// wherever they are derived.
pub proof fn resource_iri_is_a_function_of_the_key(first: Seq<char>, second: Seq<char>)
    requires
        first == second,
    ensures
        resource_iri(first) == resource_iri(second),
        hash_text(first) == hash_text(second),
{
}

/// A resource IRI is an IRI in the resource namespace.
pub proof fn resource_iri_is_in_the_resource_namespace(key: Seq<char>)
    ensures
        resource_iri(key) == TermView::Iri("http://example.org/cat/resource/"@ + hash_text(key)),
{
}

} // verus!
