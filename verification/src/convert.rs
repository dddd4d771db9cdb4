//! From an entity to the text of its graph.

use vstd::prelude::*;
use vstd::string::StringExecFns;
use crate::error::GraphError;
use crate::graph_builder::GraphBuilder;
use crate::graph_builder::holds_root;
use crate::graph_builder::link_outcome;
use crate::graph_builder::materialize_outcome;
use crate::insert_into::InsertIntoGraph;
use crate::insert_into::entity_outcome;
use crate::insert_into::root_term;
use crate::node::NodeView;
use crate::rdf_serializers::jsonld_writable;
use crate::store::StoreState;
use crate::store::turtle_text;
use crate::term::TermView;
use crate::term::TripleView;
use crate::vocab::prefix_pairs;

verus! {

/// The formats in which a graph can be written.
#[derive(Clone, Copy, Debug, PartialEq, Eq, Structural)]
pub enum RdfFormat {
    Turtle,
    Jsonld,
}

/// What a conversion needs to know.
#[derive(Clone, Debug)]
pub struct ConverterConfig {
    /// Where the input was read from.
    pub input_path: String,
    pub format: RdfFormat,
    /// What relative input paths are appended to, to make the content URL.
    pub prefix: Option<String>,
    /// Whether blank nodes are replaced by IRIs.
    pub materialize: bool,
}

/// Why a conversion failed.
#[derive(Clone, Copy, Debug, PartialEq, Eq, Structural)]
pub enum ConvertError {
    /// A prefix was given, and it is empty.
    EmptyPrefix,
    /// The input path is relative and no prefix was given.
    RelativePathWithoutPrefix,
    /// The entity could not be inserted into the graph.
    Insert(GraphError),
    /// The content URL could not be added to the graph.
    Link(GraphError),
    /// The blank nodes could not be materialized.
    Materialize(GraphError),
    /// The graph could not be serialized.
    Serialize(GraphError),
}

impl ConvertError {
    /// A sentence for the person reading the failure.
    pub fn message(&self) -> (text: &'static str)
        ensures
            text@ == self.message_text(),
    {
        match self {
            ConvertError::EmptyPrefix => "Cannot use empty prefix.",
            ConvertError::RelativePathWithoutPrefix => "Cannot build URI for relative path without a prefix.",
            ConvertError::Insert(e) => e.message(),
            ConvertError::Link(e) => e.message(),
            ConvertError::Materialize(e) => e.message(),
            ConvertError::Serialize(e) => e.message(),
        }
    }

    /// The step that failed.
    pub fn step(&self) -> (text: &'static str)
        ensures
            text@ == self.step_text(),
    {
        match self {
            ConvertError::EmptyPrefix => "Failed to build file URI",
            ConvertError::RelativePathWithoutPrefix => "Failed to build file URI",
            ConvertError::Insert(_) => "Failed to insert into the graph",
            ConvertError::Link(_) => "Failed to add content URL to the graph",
            ConvertError::Materialize(_) => "Failed to materialize blank nodes",
            ConvertError::Serialize(_) => "Failed to serialize graph",
        }
    }

    /// The text of [`ConvertError::step`].
    pub open spec fn step_text(&self) -> Seq<char> {
        match self {
            ConvertError::EmptyPrefix => "Failed to build file URI"@,
            ConvertError::RelativePathWithoutPrefix => "Failed to build file URI"@,
            ConvertError::Insert(_) => "Failed to insert into the graph"@,
            ConvertError::Link(_) => "Failed to add content URL to the graph"@,
            ConvertError::Materialize(_) => "Failed to materialize blank nodes"@,
            ConvertError::Serialize(_) => "Failed to serialize graph"@,
        }
    }

    /// The text of [`ConvertError::message`].
    pub open spec fn message_text(&self) -> Seq<char> {
        match self {
            ConvertError::EmptyPrefix => "Cannot use empty prefix."@,
            ConvertError::RelativePathWithoutPrefix => "Cannot build URI for relative path without a prefix."@,
            ConvertError::Insert(e) => e.message_text(),
            ConvertError::Link(e) => e.message_text(),
            ConvertError::Materialize(e) => e.message_text(),
            ConvertError::Serialize(e) => e.message_text(),
        }
    }
}

/// The URI of the content at `path`. An empty prefix is refused. A relative
/// path is appended to the prefix and needs one. An absolute path becomes a
/// `file` URI, whatever the prefix.
pub open spec fn file_uri(prefix: Option<String>, path: Seq<char>, absolute: bool) -> Result<
    Seq<char>,
    ConvertError,
> {
    match prefix {
        Some(given) => if given@.len() == 0 {
            Err(ConvertError::EmptyPrefix)
        } else if absolute {
            Ok("file://"@ + path)
        } else {
            Ok(given@ + path)
        },
        None => if absolute {
            Ok("file://"@ + path)
        } else {
            Err(ConvertError::RelativePathWithoutPrefix)
        },
    }
}

/// Builds the content URI from an absolute path, or from a prefix and a
/// relative path.
pub fn build_file_uri(prefix: Option<String>, path: &str, absolute: bool) -> (res: Result<
    String,
    ConvertError,
>)
    ensures
        match res {
            Ok(uri) => file_uri(prefix, path@, absolute) == Ok::<Seq<char>, ConvertError>(uri@),
            Err(e) => file_uri(prefix, path@, absolute) == Err::<Seq<char>, ConvertError>(e),
        },
{
    match prefix {
        Some(given) => {
            if given.as_str().is_empty() {
                return Err(ConvertError::EmptyPrefix);
            }
            if absolute {
                Ok(String::from_str("file://").concat(path))
            } else {
                Ok(given.concat(path))
            }
        },
        None => {
            if absolute {
                Ok(String::from_str("file://").concat(path))
            } else {
                Err(ConvertError::RelativePathWithoutPrefix)
            }
        },
    }
}

/// A finished conversion.
#[derive(Clone, Debug, PartialEq, Eq)]
pub struct Converted {
    /// The graph, written in the format asked for.
    pub text: String,
    /// Whether the graph holds a root entity, to which the content URL
    /// was added. Where it holds none, the graph has no content link.
    pub linked: bool,
}

/// The namespace in which blank nodes are materialized.
pub open spec fn resource_namespace() -> Seq<char> {
    "http://example.org/cat/resource/"@
}

/// The entity was inserted into an empty graph under `subject`, its own
/// term, and `inserted` is the graph that this left.
pub open spec fn stage_inserted(
    node: NodeView,
    subject: TermView,
    inserted: StoreState,
) -> bool {
    root_term(node.identity, subject) && entity_outcome(
        StoreState::empty(),
        inserted,
        node,
        subject,
        Ok::<(), GraphError>(()),
    )
}

/// After the insertion, the content at `uri` was linked, and `linked` is
/// the graph that this left.
pub open spec fn stage_linked(
    node: NodeView,
    uri: Seq<char>,
    subject: TermView,
    inserted: StoreState,
    linked: StoreState,
) -> bool {
    stage_inserted(node, subject, inserted) && link_outcome(
        true,
        inserted,
        linked,
        uri,
        Ok::<(), GraphError>(()),
    )
}

/// What the last step on the graph leaves behind: the materialization of
/// the blank nodes in the resource namespace, where it is asked for, else
/// the graph as it is.
pub open spec fn finish_outcome(
    materialize: bool,
    linked: StoreState,
    graph: StoreState,
    res: Result<(), GraphError>,
) -> bool {
    if materialize {
        materialize_outcome(true, linked, graph, resource_namespace(), res)
    } else {
        graph == linked && res is Ok
    }
}

/// After insertion and linking, in that order, the blank nodes were
/// materialized if that was asked for, and `graph` is the graph that this
/// left.
pub open spec fn stage_finished(
    node: NodeView,
    uri: Seq<char>,
    materialize: bool,
    subject: TermView,
    inserted: StoreState,
    linked: StoreState,
    graph: StoreState,
) -> bool {
    stage_linked(node, uri, subject, inserted, linked) && finish_outcome(
        materialize,
        linked,
        graph,
        Ok::<(), GraphError>(()),
    )
}

/// What the serializer made of the graph. The Turtle text is the one that
/// the serializer writes for these triples under the ontology's prefixes.
/// Of a JSON-LD text it is only known that the graph was one that the
/// serializer can write.
pub open spec fn written_as(
    format: RdfFormat,
    graph: Set<TripleView>,
    text: Option<Seq<char>>,
) -> bool {
    match format {
        RdfFormat::Turtle => turtle_text(graph, prefix_pairs()) == text,
        RdfFormat::Jsonld => text is Some ==> jsonld_writable(graph),
    }
}

/// What a conversion gives.
///
/// On success the text is that of the graph made in three steps, in this
/// order: the entity is inserted into an empty graph under its own term,
/// the content URI is linked to the root entity if there is one, and the
/// blank nodes are materialized in the resource namespace if that is asked
/// for. A content URI that cannot be built fails the conversion once the
/// entity is inserted. Every other failure names its step, and is the
/// failure that the step gives on the store that the steps before left.
pub open spec fn conversion_outcome(
    node: NodeView,
    uri: Result<Seq<char>, ConvertError>,
    materialize: bool,
    format: RdfFormat,
    res: Result<Converted, ConvertError>,
) -> bool {
    match res {
        Ok(done) => match uri {
            Ok(uri) => exists|
                subject: TermView,
                inserted: StoreState,
                linked: StoreState,
                graph: StoreState,
            | #[trigger]
                stage_finished(node, uri, materialize, subject, inserted, linked, graph)
                    && written_as(format, graph.triples, Some(done.text@)) && done.linked
                    == holds_root(inserted.triples),
            Err(_) => false,
        },
        Err(ConvertError::Insert(e)) => exists|subject: TermView, left: StoreState|
            root_term(node.identity, subject) && #[trigger] entity_outcome(
                StoreState::empty(),
                left,
                node,
                subject,
                Err::<(), GraphError>(e),
            ),
        Err(ConvertError::Link(e)) => match uri {
            Ok(uri) => exists|subject: TermView, inserted: StoreState, left: StoreState| #[trigger]
                stage_inserted(node, subject, inserted) && #[trigger] link_outcome(
                    true,
                    inserted,
                    left,
                    uri,
                    Err::<(), GraphError>(e),
                ),
            Err(_) => false,
        },
        Err(ConvertError::Materialize(e)) => match uri {
            Ok(uri) => materialize && exists|
                subject: TermView,
                inserted: StoreState,
                linked: StoreState,
            | #[trigger]
                stage_linked(node, uri, subject, inserted, linked) && finish_outcome(
                    materialize,
                    linked,
                    linked,
                    Err::<(), GraphError>(e),
                ),
            Err(_) => false,
        },
        Err(ConvertError::Serialize(e)) => match uri {
            Ok(uri) => e == GraphError::Serialization && exists|
                subject: TermView,
                inserted: StoreState,
                linked: StoreState,
                graph: StoreState,
            | #[trigger]
                stage_finished(node, uri, materialize, subject, inserted, linked, graph)
                    && written_as(format, graph.triples, None::<Seq<char>>),
            Err(_) => false,
        },
        Err(e) => uri == Err::<Seq<char>, ConvertError>(e) && exists|
            subject: TermView,
            inserted: StoreState,
        | #[trigger] stage_inserted(node, subject, inserted),
    }
}

/// Builds the graph of an entity and writes it in the format asked for:
/// the entity is inserted, the graph is linked to the input it was read
/// from, blank nodes are materialized in the resource namespace if the
/// configuration says so, and the result is serialized.
///
/// `absolute` tells whether the input path is absolute.
pub fn entity_to_rdf<T: InsertIntoGraph>(
    entity: &T,
    config: &ConverterConfig,
    absolute: bool,
) -> (res: Result<Converted, ConvertError>)
    ensures
        conversion_outcome(
            entity.node(),
            file_uri(config.prefix, config.input_path@, absolute),
            config.materialize,
            config.format,
            res,
        ),
{
    let ghost node = entity.node();
    let ghost target = file_uri(config.prefix, config.input_path@, absolute);
    let mut builder = GraphBuilder::new();
    let first = builder.insert(entity);
    let ghost subject = choose|subject: TermView|
        root_term(node.identity, subject) && #[trigger] entity_outcome(
            StoreState::empty(),
            builder.state(),
            node,
            subject,
            first,
        );
    match first {
        Ok(()) => {
            assert(first->Ok_0 == ());
        },
        Err(e) => {
            assert(root_term(node.identity, subject) && entity_outcome(
                StoreState::empty(),
                builder.state(),
                node,
                subject,
                Err::<(), GraphError>(e),
            ));
            return Err(ConvertError::Insert(e));
        },
    }
    let ghost inserted = builder.state();
    assert(stage_inserted(node, subject, inserted));
    let uri = match build_file_uri(config.prefix.clone(), config.input_path.as_str(), absolute) {
        Ok(uri) => uri,
        Err(e) => {
            assert(target == Err::<Seq<char>, ConvertError>(e) && stage_inserted(
                node,
                subject,
                inserted,
            ));
            return Err(e);
        },
    };
    assert(target->Ok_0 == uri@);
    let linked = match builder.has_root() {
        Ok(found) => found,
        Err(e) => {
            return Err(ConvertError::Link(e));
        },
    };
    let second = builder.link_content(uri.as_str());
    match second {
        Ok(()) => {
            assert(second->Ok_0 == ());
        },
        Err(e) => {
            assert(stage_inserted(node, subject, inserted) && link_outcome(
                true,
                inserted,
                builder.state(),
                uri@,
                Err::<(), GraphError>(e),
            ));
            return Err(ConvertError::Link(e));
        },
    }
    let ghost tied = builder.state();
    assert(stage_linked(node, uri@, subject, inserted, tied));
    if config.materialize {
        let third = builder.materialize_blank_nodes(Some("http://example.org/cat/resource/"));
        match third {
            Ok(()) => {
                assert(third->Ok_0 == ());
            },
            Err(e) => {
                assert(stage_linked(node, uri@, subject, inserted, tied) && finish_outcome(
                    config.materialize,
                    tied,
                    tied,
                    Err::<(), GraphError>(e),
                ));
                return Err(ConvertError::Materialize(e));
            },
        }
    }
    let ghost graph = builder.state();
    assert(stage_finished(node, uri@, config.materialize, subject, inserted, tied, graph));
    let text = match config.format {
        RdfFormat::Jsonld => builder.serialize_to_jsonld(),
        RdfFormat::Turtle => builder.serialize_to_turtle(),
    };
    match text {
        Ok(text) => {
            let done = Converted { text, linked };
            assert(stage_finished(
                node,
                uri@,
                config.materialize,
                subject,
                inserted,
                tied,
                graph,
            ) && written_as(config.format, graph.triples, Some(done.text@)) && done.linked
                == holds_root(inserted.triples));
            Ok(done)
        },
        Err(e) => {
            assert(stage_finished(
                node,
                uri@,
                config.materialize,
                subject,
                inserted,
                tied,
                graph,
            ) && written_as(config.format, graph.triples, None::<Seq<char>>));
            Err(ConvertError::Serialize(e))
        },
    }
}

} // verus!
