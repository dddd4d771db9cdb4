//! Conversion of laboratory records into RDF graphs: the mapping engine,
//! the identity rules and the graph operations around them.

pub mod error;
pub mod term;
pub mod store;
pub mod vocab;
pub mod identity;
pub mod node;
pub mod emission;
pub mod insert_into;
pub mod rdf_serializers;
pub mod graph_builder;
pub mod models;
pub mod text;
pub mod convert;
pub mod manage_io;
pub mod synth_converter;
