//! The first shape of the synthesis records: a batch with its actions as
//! the platform first wrote them, turned into lists of triples.

use vstd::prelude::*;
use crate::error::GraphError;
use crate::insert_into::InsertIntoGraph;
use crate::node::Link;
use crate::node::Node;
use crate::node::NodeView;
use crate::node::Value;
use crate::node::ValueView;
use crate::emission::count_fields;
use crate::emission::count_value;
use crate::emission::emit_value;
use crate::emission::emit_value_into;
use crate::emission::fields_demand;
use crate::insert_into::flatten;
use crate::emission::label_texts;
use crate::node::lemma_fields_view;
use crate::insert_into::mint_labels;
use crate::insert_into::minted;
use crate::insert_into::nested_value;
use crate::emission::node_triples;
use crate::node::optional_text_value;
use crate::insert_into::optional_value;
use crate::insert_into::repeated_linked_value;
use crate::insert_into::repeated_value;
use crate::emission::value_demand;
use crate::store::StoreState;
use crate::store::TripleStore;
use crate::store::batch_outcome;
use crate::store::store_plain;
use crate::term::Term;
use crate::term::TermView;
use crate::term::Triple;
use crate::term::TripleView;
use crate::term::triple_views;
use crate::vocab::allores;
use crate::vocab::allores_iri;
use crate::vocab::alloproc;
use crate::vocab::alloproc_iri;
use crate::vocab::alloqual;
use crate::vocab::alloqual_iri;
use crate::vocab::cat;
use crate::vocab::cat_iri;
use crate::vocab::obo;
use crate::vocab::obo_iri;
use crate::vocab::purl;
use crate::vocab::purl_iri;
use crate::vocab::qudt;
use crate::vocab::qudt_iri;
use crate::vocab::rdf_type;
use crate::vocab::rdf_type_iri;
use crate::vocab::schema;
use crate::vocab::schema_iri;
use crate::vocab::string_literal;
use crate::vocab::xsd_literal;

verus! {

/// What listing the triples of an entity gives: its description under
/// `subject`, for some choice of labels for its blank nodes. An entity with
/// more blank nodes than the machine can count is refused.
pub open spec fn listing_outcome(
    node: NodeView,
    subject: TermView,
    res: Result<Vec<Triple>, GraphError>,
) -> bool {
    if fields_demand(node.fields, node.fields.len()) > usize::MAX {
        res matches Err(e) && e == GraphError::LabelShortage
    } else {
        res matches Ok(triples) && exists|labels: Seq<Seq<char>>|
            minted(labels, fields_demand(node.fields, node.fields.len())) && triple_views(triples@)
                == #[trigger] node_triples(node, subject, labels)
    }
}

/// What linking a node gives: the triple from the holder to the node, then
/// the node's description, for some choice of labels for its blank nodes.
pub open spec fn linking_outcome(
    node: NodeView,
    source: TermView,
    predicate: TermView,
    res: Result<Vec<Triple>, GraphError>,
) -> bool {
    if value_demand(ValueView::Entity(Link::Forward, node)) > usize::MAX {
        res matches Err(e) && e == GraphError::LabelShortage
    } else {
        res matches Ok(triples) && exists|labels: Seq<Seq<char>>|
            minted(labels, value_demand(ValueView::Entity(Link::Forward, node))) && triple_views(
                triples@,
            ) == #[trigger] emit_value(
                source,
                predicate,
                ValueView::Entity(Link::Forward, node),
                labels,
                0,
            )
    }
}

/// An entity that can list the triples that describe it.
pub trait ToGraph: InsertIntoGraph {
    /// The triples that describe the entity as `subject`, with fresh labels
    /// for its blank nodes.
    fn to_triples(&self, subject: Term) -> (res: Result<Vec<Triple>, GraphError>)
        ensures
            listing_outcome(self.node(), subject@, res),
    {
        let node = self.describe();
        proof {
            lemma_fields_view(node.fields@, node.fields@.len());
        }
        match count_fields(&node.fields) {
            None => Err(GraphError::LabelShortage),
            Some(needed) => {
                let labels = mint_labels(needed);
                match flatten(&node, &subject, &labels) {
                    Some(triples) => {
                        assert(triple_views(triples@) == node_triples(
                            self.node(),
                            subject@,
                            label_texts(labels@),
                        ));
                        Ok(triples)
                    },
                    None => Err(GraphError::LabelShortage),
                }
            },
        }
    }

    /// A store of its own with the triples that describe the entity as
    /// `subject`.
    fn to_graph(&self, subject: Term) -> (res: Result<TripleStore, GraphError>)
        ensures
            graph_outcome(self.node(), subject@, res),
    {
        let triples = match self.to_triples(subject) {
            Ok(triples) => triples,
            Err(e) => {
                return Err(e);
            },
        };
        let ghost labels = choose|labels: Seq<Seq<char>>|
            minted(labels, fields_demand(self.node().fields, self.node().fields.len()))
                && triple_views(triples@) == #[trigger] node_triples(self.node(), subject@, labels);
        let mut graph = TripleStore::new();
        match graph.insert_all(&triples) {
            Ok(()) => {
                assert(store_outcome(
                    node_triples(self.node(), subject@, labels),
                    Ok::<TripleStore, GraphError>(graph),
                ));
                Ok(graph)
            },
            Err(e) => {
                assert(batch_outcome(
                    StoreState::empty(),
                    graph.state(),
                    node_triples(self.node(), subject@, labels),
                    Err::<(), GraphError>(e),
                ));
                assert(store_outcome(
                    node_triples(self.node(), subject@, labels),
                    Err::<TripleStore, GraphError>(e),
                ));
                Err(e)
            },
        }
    }
}

/// What building a store of its own from a list of triples gives: on
/// success the store holds the triples and nothing else; a failure is the
/// one that writing them as one batch into an empty store can give.
pub open spec fn store_outcome(
    triples: Seq<TripleView>,
    res: Result<TripleStore, GraphError>,
) -> bool {
    match res {
        Ok(store) => store_plain(store) && batch_outcome(
            StoreState::empty(),
            store.state(),
            triples,
            Ok::<(), GraphError>(()),
        ),
        Err(e) => exists|left: StoreState| #[trigger]
            batch_outcome(StoreState::empty(), left, triples, Err::<(), GraphError>(e)),
    }
}

/// What building the graph of an entity gives: the outcome of storing its
/// description under `subject`, for some labels for its blank nodes, each
/// the text of a random UUID. An entity with more blank nodes than the
/// machine can count is refused.
pub open spec fn graph_outcome(
    node: NodeView,
    subject: TermView,
    res: Result<TripleStore, GraphError>,
) -> bool {
    if fields_demand(node.fields, node.fields.len()) > usize::MAX {
        res matches Err(e) && e == GraphError::LabelShortage
    } else {
        exists|labels: Seq<Seq<char>>|
            minted(labels, fields_demand(node.fields, node.fields.len())) && #[trigger] store_outcome(
                node_triples(node, subject, labels),
                res,
            )
    }
}

/// The triple that links `source_uri` to the node, followed by the triples
/// that describe the node.
pub fn link_node<N: ToGraph>(source_uri: Term, predicate: Term, node: &N) -> (res: Result<
    Vec<Triple>,
    GraphError,
>)
    ensures
        linking_outcome(node.node(), source_uri@, predicate@, res),
{
    let value = Value::Entity(Link::Forward, node.describe());
    assert(value@ == ValueView::Entity(Link::Forward, node.node()));
    match count_value(&value) {
        None => Err(GraphError::LabelShortage),
        Some(needed) => {
            let labels = mint_labels(needed);
            let mut triples: Vec<Triple> = Vec::new();
            let _ = emit_value_into(&source_uri, &predicate, &value, &labels, 0, &mut triples);
            assert(triple_views(triples@) =~= emit_value(
                source_uri@,
                predicate@,
                ValueView::Entity(Link::Forward, node.node()),
                label_texts(labels@),
                0,
            ));
            Ok(triples)
        },
    }
}

/// A batch as the platform first wrote it.
#[derive(Debug)]
pub struct Batch {
    pub batch_id: String,
    pub actions: Vec<Action>,
    pub batch_name: Option<String>,
    pub reaction_type: Option<String>,
    pub optimization_type: Option<String>,
    pub link: Option<String>,
}

impl InsertIntoGraph for Batch {
    open spec fn node(&self) -> NodeView {
        NodeView::anonymous().with(rdf_type_iri(), ValueView::Scalar(cat_iri("Batch"@))).with(
            schema_iri("name"@),
            ValueView::Scalar(string_literal(self.batch_id@)),
        ).with(cat_iri("hasBatch"@), repeated_linked_value(Link::Reverse, self.actions@))
    }

    fn describe(&self) -> (node: Node)
        ensures
            node@ == self.node(),
    {
        let mut node = Node::anonymous();
        node.attach(rdf_type(), Value::term(cat("Batch")));
        node.attach(schema("name"), Value::text(self.batch_id.as_str()));
        node.attach(cat("hasBatch"), Value::each_linked(Link::Reverse, &self.actions));
        node
    }
}

impl ToGraph for Batch {

}

/// The kinds of action that the platform first knew.
#[allow(non_camel_case_types)]
#[derive(Clone, Copy, Debug, PartialEq, Eq, Structural)]
pub enum ActionName {
    AddAction,
    setTemperatureAction,
    filtrateAction,
    shakeAction,
    setVacuumAction,
    setPressureAction,
}

impl ActionName {
    /// The class of the action.
    pub open spec fn iri_view(&self) -> TermView {
        match self {
            ActionName::AddAction => cat_iri("AddAction"@),
            ActionName::setTemperatureAction => cat_iri("SetTemperatureAction"@),
            ActionName::setPressureAction => cat_iri("SetPressureAction"@),
            ActionName::shakeAction => cat_iri("ShakeAction"@),
            ActionName::setVacuumAction => cat_iri("SetVacuumAction"@),
            ActionName::filtrateAction => cat_iri("FiltrateAction"@),
        }
    }

    /// The class of the action.
    pub fn iri(&self) -> (term: Term)
        ensures
            term@ == self.iri_view(),
    {
        match self {
            ActionName::AddAction => cat("AddAction"),
            ActionName::setTemperatureAction => cat("SetTemperatureAction"),
            ActionName::setPressureAction => cat("SetPressureAction"),
            ActionName::shakeAction => cat("ShakeAction"),
            ActionName::setVacuumAction => cat("SetVacuumAction"),
            ActionName::filtrateAction => cat("FiltrateAction"),
        }
    }

    /// The text of the class of the action.
    pub open spec fn class_text(&self) -> Seq<char> {
        match self.iri_view() {
            TermView::Iri(text) => text,
            _ => Seq::empty(),
        }
    }

    /// The text of the class of the action.
    pub fn to_string(&self) -> (text: String)
        ensures
            text@ == self.class_text(),
            self.iri_view() == TermView::Iri(text@),
    {
        match self.iri() {
            Term::Iri(text) => text,
            _ => String::new(),
        }
    }
}

/// One action as the platform first wrote it.
#[derive(Debug)]
pub struct Action {
    pub action_name: ActionName,
    pub start_time: String,
    pub ending_time: String,
    pub method_name: String,
    pub equipment_name: String,
    pub sub_equipment_name: String,
    pub container_info: Option<ContainerInfo>,
    pub speed_shaker: Option<Observation>,
    pub has_container_position_and_quantity: Option<Vec<ContainerPositionQuantityItem>>,
    pub dispense_state: Option<String>,
    pub dispense_type: Option<String>,
    pub has_sample: Option<Sample>,
    pub speed_tumble_stirrer: Option<Observation>,
    pub temperature_tumble_stirrer: Option<Observation>,
    pub temperature_shaker: Option<Observation>,
    pub pressure_measurement: Option<Observation>,
}

/// The text of an optional container's field.
pub open spec fn container_id_value(container: Option<ContainerInfo>) -> ValueView {
    match container {
        Some(info) => ValueView::Scalar(string_literal(info.container_id@)),
        None => ValueView::Absent,
    }
}

/// The text of an optional container's field.
pub open spec fn container_barcode_value(container: Option<ContainerInfo>) -> ValueView {
    match container {
        Some(info) => ValueView::Scalar(string_literal(info.container_barcode@)),
        None => ValueView::Absent,
    }
}

/// The positions that an action dispenses into, where it has any.
pub open spec fn positions_value(
    positions: Option<Vec<ContainerPositionQuantityItem>>,
) -> ValueView {
    match positions {
        Some(items) => repeated_value(items@),
        None => ValueView::Absent,
    }
}

impl InsertIntoGraph for Action {
    /// The container of an action is written on the action itself, and the
    /// class of the action as a text.
    open spec fn node(&self) -> NodeView {
        NodeView::anonymous().with(
            allores_iri("AFX_0000622"@),
            ValueView::Scalar(string_literal(self.start_time@)),
        ).with(allores_iri("AFR_0002423"@), ValueView::Scalar(string_literal(self.ending_time@)))
            .with(allores_iri("AFR_0001606"@), ValueView::Scalar(string_literal(self.method_name@)))
            .with(
            allores_iri("AFR_0001723"@),
            ValueView::Scalar(string_literal(self.equipment_name@)),
        ).with(
            cat_iri("subEquipmentName"@),
            ValueView::Scalar(string_literal(self.sub_equipment_name@)),
        ).with(
            rdf_type_iri(),
            ValueView::Scalar(string_literal(self.action_name.class_text())),
        ).with(
            cat_iri("dispenseType"@),
            optional_text_value(self.dispense_type),
        ).with(cat_iri("temperatureShakerShape"@), optional_value(self.temperature_shaker)).with(
            cat_iri("temperatureTumbleStirrerShape"@),
            optional_value(self.temperature_tumble_stirrer),
        ).with(cat_iri("speedInRPM"@), optional_value(self.speed_shaker)).with(
            cat_iri("speedTumbleStirrerShape"@),
            optional_value(self.speed_tumble_stirrer),
        ).with(alloproc_iri("AFP_0002677"@), optional_value(self.pressure_measurement)).with(
            cat_iri("hasContainerPositionAndQuantity"@),
            positions_value(self.has_container_position_and_quantity),
        ).with(cat_iri("containerID"@), container_id_value(self.container_info)).with(
            cat_iri("containerBarcode"@),
            container_barcode_value(self.container_info),
        ).with(cat_iri("hasSample"@), optional_value(self.has_sample))
    }

    fn describe(&self) -> (node: Node)
        ensures
            node@ == self.node(),
    {
        let mut node = Node::anonymous();
        node.attach(allores("AFX_0000622"), Value::text(self.start_time.as_str()));
        node.attach(allores("AFR_0002423"), Value::text(self.ending_time.as_str()));
        node.attach(allores("AFR_0001606"), Value::text(self.method_name.as_str()));
        node.attach(allores("AFR_0001723"), Value::text(self.equipment_name.as_str()));
        node.attach(cat("subEquipmentName"), Value::text(self.sub_equipment_name.as_str()));
        node.attach(rdf_type(), Value::text(self.action_name.to_string().as_str()));
        node.attach(cat("dispenseType"), Value::optional_text(&self.dispense_type));
        node.attach(cat("temperatureShakerShape"), Value::optional(&self.temperature_shaker));
        node.attach(
            cat("temperatureTumbleStirrerShape"),
            Value::optional(&self.temperature_tumble_stirrer),
        );
        node.attach(cat("speedInRPM"), Value::optional(&self.speed_shaker));
        node.attach(cat("speedTumbleStirrerShape"), Value::optional(&self.speed_tumble_stirrer));
        node.attach(alloproc("AFP_0002677"), Value::optional(&self.pressure_measurement));
        let positions = match &self.has_container_position_and_quantity {
            Some(items) => Value::each(items),
            None => Value::Absent,
        };
        node.attach(cat("hasContainerPositionAndQuantity"), positions);
        let (id, barcode) = match &self.container_info {
            Some(info) => (
                Value::text(info.container_id.as_str()),
                Value::text(info.container_barcode.as_str()),
            ),
            None => (Value::Absent, Value::Absent),
        };
        node.attach(cat("containerID"), id);
        node.attach(cat("containerBarcode"), barcode);
        node.attach(cat("hasSample"), Value::optional(&self.has_sample));
        node
    }
}

impl ToGraph for Action {

}

/// The container that an action works on.
#[derive(Debug)]
pub struct ContainerInfo {
    pub container_id: String,
    pub container_barcode: String,
}

impl InsertIntoGraph for ContainerInfo {
    open spec fn node(&self) -> NodeView {
        NodeView::anonymous().with(
            cat_iri("containerID"@),
            ValueView::Scalar(string_literal(self.container_id@)),
        ).with(
            cat_iri("containerBarcode"@),
            ValueView::Scalar(string_literal(self.container_barcode@)),
        )
    }

    fn describe(&self) -> (node: Node)
        ensures
            node@ == self.node(),
    {
        let mut node = Node::anonymous();
        node.attach(cat("containerID"), Value::text(self.container_id.as_str()));
        node.attach(cat("containerBarcode"), Value::text(self.container_barcode.as_str()));
        node
    }
}

impl ToGraph for ContainerInfo {

}

/// A quantity with the name of its unit. `value` is the number as it is
/// written in an `xsd:double` literal.
#[derive(Debug)]
pub struct Observation {
    pub value: String,
    pub unit: String,
    pub error_margin: Option<ErrorMargin>,
}

impl InsertIntoGraph for Observation {
    open spec fn node(&self) -> NodeView {
        NodeView::anonymous().with(
            rdf_type_iri(),
            ValueView::Scalar(cat_iri("Observation"@)),
        ).with(qudt_iri("unit"@), ValueView::Scalar(string_literal(self.unit@))).with(
            qudt_iri("value"@),
            ValueView::Scalar(xsd_literal(self.value@, "double"@)),
        ).with(cat_iri("errorMargin"@), optional_value(self.error_margin))
    }

    fn describe(&self) -> (node: Node)
        ensures
            node@ == self.node(),
    {
        let mut node = Node::anonymous();
        node.attach(rdf_type(), Value::term(cat("Observation")));
        node.attach(qudt("unit"), Value::text(self.unit.as_str()));
        node.attach(qudt("value"), Value::typed(self.value.as_str(), "double"));
        node.attach(cat("errorMargin"), Value::optional(&self.error_margin));
        node
    }
}

impl ToGraph for Observation {

}

/// The margin of error of an observation. `value` is the number as it is
/// written in an `xsd:double` literal.
#[derive(Debug)]
pub struct ErrorMargin {
    pub value: String,
    pub unit: String,
}

impl InsertIntoGraph for ErrorMargin {
    open spec fn node(&self) -> NodeView {
        NodeView::anonymous().with(
            rdf_type_iri(),
            ValueView::Scalar(cat_iri("errorMargin"@)),
        ).with(qudt_iri("unit"@), ValueView::Scalar(string_literal(self.unit@))).with(
            qudt_iri("value"@),
            ValueView::Scalar(xsd_literal(self.value@, "double"@)),
        )
    }

    fn describe(&self) -> (node: Node)
        ensures
            node@ == self.node(),
    {
        let mut node = Node::anonymous();
        node.attach(rdf_type(), Value::term(cat("errorMargin")));
        node.attach(qudt("unit"), Value::text(self.unit.as_str()));
        node.attach(qudt("value"), Value::typed(self.value.as_str(), "double"));
        node
    }
}

impl ToGraph for ErrorMargin {

}

/// The vial that an addition takes from, with what it holds.
#[derive(Debug)]
pub struct Sample {
    pub container: ContainerInfo,
    pub vial_id: String,
    pub vial_type: String,
    pub role: String,
    pub expected_datum: Observation,
    pub has_sample: Vec<SampleItem>,
}

impl InsertIntoGraph for Sample {
    open spec fn node(&self) -> NodeView {
        NodeView::anonymous().with(rdf_type_iri(), ValueView::Scalar(cat_iri("Sample"@))).with(
            cat_iri("containerID"@),
            ValueView::Scalar(string_literal(self.container.container_id@)),
        ).with(
            cat_iri("containerBarcode"@),
            ValueView::Scalar(string_literal(self.container.container_barcode@)),
        ).with(allores_iri("AFR_0002464"@), ValueView::Scalar(string_literal(self.vial_id@)))
            .with(cat_iri("vialShape"@), ValueView::Scalar(string_literal(self.vial_type@))).with(
            cat_iri("role"@),
            ValueView::Scalar(string_literal(self.role@)),
        ).with(cat_iri("expectedDatum"@), nested_value(self.expected_datum)).with(
            cat_iri("hasSample"@),
            repeated_value(self.has_sample@),
        )
    }

    fn describe(&self) -> (node: Node)
        ensures
            node@ == self.node(),
    {
        let mut node = Node::anonymous();
        node.attach(rdf_type(), Value::term(cat("Sample")));
        node.attach(cat("containerID"), Value::text(self.container.container_id.as_str()));
        node.attach(cat("containerBarcode"), Value::text(self.container.container_barcode.as_str()));
        node.attach(allores("AFR_0002464"), Value::text(self.vial_id.as_str()));
        node.attach(cat("vialShape"), Value::text(self.vial_type.as_str()));
        node.attach(cat("role"), Value::text(self.role.as_str()));
        node.attach(cat("expectedDatum"), Value::nested(&self.expected_datum));
        node.attach(cat("hasSample"), Value::each(&self.has_sample));
        node
    }
}

impl ToGraph for Sample {

}

/// One substance in a vial.
#[derive(Debug)]
pub struct SampleItem {
    pub sample_id: String,
    pub role: String,
    pub internal_bar_code: String,
    pub expected_datum: Option<Observation>,
    pub measured_quantity: Option<Observation>,
    pub concentration: Option<Observation>,
    pub physical_state: String,
    pub has_chemical: Chemical,
}

impl InsertIntoGraph for SampleItem {
    open spec fn node(&self) -> NodeView {
        NodeView::anonymous().with(rdf_type_iri(), ValueView::Scalar(cat_iri("Sample"@))).with(
            purl_iri("identifier"@),
            ValueView::Scalar(string_literal(self.sample_id@)),
        ).with(cat_iri("role"@), ValueView::Scalar(string_literal(self.role@))).with(
            cat_iri("internalBarCode"@),
            ValueView::Scalar(string_literal(self.internal_bar_code@)),
        ).with(
            alloqual_iri("AFQ_0000111"@),
            ValueView::Scalar(string_literal(self.physical_state@)),
        ).with(cat_iri("expectedDatum"@), optional_value(self.expected_datum)).with(
            cat_iri("measuredQuantity"@),
            optional_value(self.measured_quantity),
        ).with(allores_iri("AFR_0002036"@), optional_value(self.concentration)).with(
            cat_iri("hasChemical"@),
            nested_value(self.has_chemical),
        )
    }

    fn describe(&self) -> (node: Node)
        ensures
            node@ == self.node(),
    {
        let mut node = Node::anonymous();
        node.attach(rdf_type(), Value::term(cat("Sample")));
        node.attach(purl("identifier"), Value::text(self.sample_id.as_str()));
        node.attach(cat("role"), Value::text(self.role.as_str()));
        node.attach(cat("internalBarCode"), Value::text(self.internal_bar_code.as_str()));
        node.attach(alloqual("AFQ_0000111"), Value::text(self.physical_state.as_str()));
        node.attach(cat("expectedDatum"), Value::optional(&self.expected_datum));
        node.attach(cat("measuredQuantity"), Value::optional(&self.measured_quantity));
        node.attach(allores("AFR_0002036"), Value::optional(&self.concentration));
        node.attach(cat("hasChemical"), Value::nested(&self.has_chemical));
        node
    }
}

impl ToGraph for SampleItem {

}

/// A chemical substance, without a natural key of its own.
#[derive(Debug)]
pub struct Chemical {
    pub chemical_id: String,
    pub chemical_name: String,
    pub cas_number: Option<String>,
    pub molecular_mass: Observation,
    pub smiles: String,
    pub swiss_cat_number: Option<String>,
    pub inchi: String,
    pub keywords: Option<String>,
    pub molecular_formula: String,
    pub density: Option<Observation>,
}

impl InsertIntoGraph for Chemical {
    open spec fn node(&self) -> NodeView {
        NodeView::anonymous().with(
            rdf_type_iri(),
            ValueView::Scalar(obo_iri("CHEBI_25367"@)),
        ).with(purl_iri("identifier"@), ValueView::Scalar(string_literal(self.chemical_id@))).with(
            cat_iri("chemicalName"@),
            ValueView::Scalar(string_literal(self.chemical_name@)),
        ).with(
            allores_iri("AFR_0001952"@),
            ValueView::Scalar(string_literal(self.molecular_formula@)),
        ).with(allores_iri("AFR_0002295"@), ValueView::Scalar(string_literal(self.smiles@))).with(
            allores_iri("AFR_0002294"@),
            nested_value(self.molecular_mass),
        ).with(allores_iri("AFR_0002296"@), ValueView::Scalar(string_literal(self.inchi@))).with(
            cat_iri("casNumber"@),
            optional_text_value(self.cas_number),
        ).with(cat_iri("swissCatNumber"@), optional_text_value(self.swiss_cat_number)).with(
            schema_iri("keywords"@),
            optional_text_value(self.keywords),
        ).with(obo_iri("PATO_0001019"@), optional_value(self.density))
    }

    fn describe(&self) -> (node: Node)
        ensures
            node@ == self.node(),
    {
        let mut node = Node::anonymous();
        node.attach(rdf_type(), Value::term(obo("CHEBI_25367")));
        node.attach(purl("identifier"), Value::text(self.chemical_id.as_str()));
        node.attach(cat("chemicalName"), Value::text(self.chemical_name.as_str()));
        node.attach(allores("AFR_0001952"), Value::text(self.molecular_formula.as_str()));
        node.attach(allores("AFR_0002295"), Value::text(self.smiles.as_str()));
        node.attach(allores("AFR_0002294"), Value::nested(&self.molecular_mass));
        node.attach(allores("AFR_0002296"), Value::text(self.inchi.as_str()));
        node.attach(cat("casNumber"), Value::optional_text(&self.cas_number));
        node.attach(cat("swissCatNumber"), Value::optional_text(&self.swiss_cat_number));
        node.attach(schema("keywords"), Value::optional_text(&self.keywords));
        node.attach(obo("PATO_0001019"), Value::optional(&self.density));
        node
    }
}

impl ToGraph for Chemical {

}

/// A position that an action dispenses into, with the quantity dispensed.
#[derive(Debug)]
pub struct ContainerPositionQuantityItem {
    pub container_id: String,
    pub position: String,
    pub quantity: Observation,
}

impl InsertIntoGraph for ContainerPositionQuantityItem {
    open spec fn node(&self) -> NodeView {
        NodeView::anonymous().with(
            rdf_type_iri(),
            ValueView::Scalar(cat_iri("ContainerPositionAndQuantity"@)),
        ).with(cat_iri("containerID"@), ValueView::Scalar(string_literal(self.container_id@)))
            .with(allores_iri("AFR_0002240"@), ValueView::Scalar(string_literal(self.position@)))
            .with(qudt_iri("quantity"@), nested_value(self.quantity))
    }

    fn describe(&self) -> (node: Node)
        ensures
            node@ == self.node(),
    {
        let mut node = Node::anonymous();
        node.attach(rdf_type(), Value::term(cat("ContainerPositionAndQuantity")));
        node.attach(cat("containerID"), Value::text(self.container_id.as_str()));
        node.attach(allores("AFR_0002240"), Value::text(self.position.as_str()));
        node.attach(qudt("quantity"), Value::nested(&self.quantity));
        node
    }
}

impl ToGraph for ContainerPositionQuantityItem {

}

} // verus!
