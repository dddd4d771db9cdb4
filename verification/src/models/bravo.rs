//! The records of the Bravo liquid handler.

use vstd::prelude::*;
use crate::emission::emit_fields;
use crate::emission::field_contributes_its_own_triples;
use crate::emission::emit_value;
use crate::emission::fields_demand;
use crate::emission::node_triples;
use crate::emission::value_demand;
use crate::error::GraphError;
use crate::insert_into::InsertIntoGraph;
use crate::insert_into::entity_outcome;
use crate::insert_into::entity_without_triples_changes_nothing;
use crate::store::StoreState;
use crate::term::TermView;
use crate::term::TripleView;
use crate::node::Link;
use crate::node::Node;
use crate::node::NodeView;
use crate::node::Value;
use crate::node::ValueView;
use crate::insert_into::nested_value;
use crate::node::no_predicate;
use crate::node::optional_text_value;
use crate::insert_into::optional_value;
use crate::insert_into::repeated_linked_value;
use crate::node::unlinked;
use crate::models::base::Chemical;
use crate::models::base::Observation;
use crate::models::base::Plate;
use crate::models::base::Well;
use crate::models::enums::ActionName;
use crate::vocab::allores;
use crate::vocab::allores_iri;
use crate::vocab::alloprop;
use crate::vocab::alloprop_iri;
use crate::vocab::alloqual;
use crate::vocab::alloqual_iri;
use crate::vocab::cat;
use crate::vocab::cat_iri;
use crate::vocab::purl;
use crate::vocab::purl_iri;
use crate::vocab::rdf_type;
use crate::vocab::rdf_type_iri;
use crate::vocab::string_literal;
use crate::vocab::xsd_literal;

verus! {

/// A document of the Bravo: the actions it recorded.
#[derive(Clone, Debug)]
pub struct BravoActionWrapper {
    pub actions: Option<Vec<BravoAction>>,
}

impl InsertIntoGraph for BravoActionWrapper {
    /// The document itself is described by no triple: each action stands
    /// on its own.
    open spec fn node(&self) -> NodeView {
        NodeView::anonymous().with(
            no_predicate(),
            match self.actions {
                Some(actions) => repeated_linked_value(Link::Detached, actions@),
                None => ValueView::Absent,
            },
        )
    }

    fn describe(&self) -> (node: Node)
        ensures
            node@ == self.node(),
    {
        let mut node = Node::anonymous();
        let actions = match &self.actions {
            Some(actions) => Value::each_linked(Link::Detached, actions),
            None => Value::Absent,
        };
        node.attach(unlinked(), actions);
        node
    }
}

/// A document without actions is described by no triple, and takes no
/// label: its insertion succeeds and leaves the graph as it was.
pub proof fn document_without_actions_writes_nothing(
    document: BravoActionWrapper,
    subject: TermView,
    before: StoreState,
    after: StoreState,
    res: Result<(), GraphError>,
)
    requires
        document.actions matches Some(actions) ==> actions@.len() == 0,
        entity_outcome(before, after, document.node(), subject, res),
    ensures
        fields_demand(document.node().fields, document.node().fields.len()) == 0,
        forall|labels: Seq<Seq<char>>|
            (#[trigger] node_triples(document.node(), subject, labels)).len() == 0,
        res is Ok,
        after == before,
{
    reveal_with_fuel(fields_demand, 2);
    reveal_with_fuel(emit_fields, 2);
    let node = document.node();
    assert(node.fields.len() == 1);
    assert(value_demand(node.fields[0].value) == 0);
    assert forall|labels: Seq<Seq<char>>|
        (#[trigger] node_triples(document.node(), subject, labels)).len() == 0 by {
        assert(emit_value(subject, node.fields[0].predicate, node.fields[0].value, labels, 0).len()
            == 0);
    }
    entity_without_triples_changes_nothing(before, after, document.node(), subject, res);
}

/// One action of the Bravo.
#[derive(Clone, Debug)]
pub struct BravoAction {
    pub action_name: ActionName,
    pub start_time: String,
    pub ending_time: String,
    pub method_name: Option<String>,
    pub equipment_name: String,
    pub sub_equipment_name: Option<String>,
    pub speed_shaker: Option<Observation>,
    pub at_well: Option<BravoWell>,
    pub dispense_state: Option<String>,
    pub dispense_type: Option<String>,
    pub has_sample: Option<BravoSample>,
    pub temperature: Option<Observation>,
    pub volume_evaporation_final: Option<Observation>,
    pub has_solvent: Option<Solvent>,
    pub spme_process: Option<bool>,
    pub has_cartridge: Option<Cartridge>,
    pub start_duration: Option<Observation>,
    pub ending_duration: Option<Observation>,
    pub order: Option<String>,
    pub product_identification: BravoProduct,
}

/// The class under which the Bravo records an action: its additions have a
/// class of their own.
pub open spec fn bravo_action_class(name: ActionName) -> ActionName {
    if name == ActionName::AddAction {
        ActionName::BravoAddAction
    } else {
        name
    }
}

/// The value of an optional flag: `true` or `false` as an `xsd:boolean`.
pub open spec fn optional_flag_value(flag: Option<bool>) -> ValueView {
    match flag {
        Some(true) => ValueView::Scalar(xsd_literal("true"@, "boolean"@)),
        Some(false) => ValueView::Scalar(xsd_literal("false"@, "boolean"@)),
        None => ValueView::Absent,
    }
}

/// Builds the value of an optional flag.
pub fn optional_flag(flag: Option<bool>) -> (value: Value)
    ensures
        value@ == optional_flag_value(flag),
{
    match flag {
        Some(true) => Value::typed("true", "boolean"),
        Some(false) => Value::typed("false", "boolean"),
        None => Value::Absent,
    }
}

impl BravoAction {
    /// The table of the action up to its last field, the flag of the
    /// solid-phase micro-extraction.
    pub open spec fn body(&self) -> NodeView {
        NodeView::anonymous().with(
            rdf_type_iri(),
            ValueView::Scalar(bravo_action_class(self.action_name).iri_view()),
        ).with(
            allores_iri("AFX_0000622"@),
            ValueView::Scalar(xsd_literal(self.start_time@, "dateTime"@)),
        ).with(
            allores_iri("AFR_0002423"@),
            ValueView::Scalar(xsd_literal(self.ending_time@, "dateTime"@)),
        ).with(allores_iri("AFR_0001606"@), optional_text_value(self.method_name)).with(
            allores_iri("AFR_0001723"@),
            ValueView::Scalar(string_literal(self.equipment_name@)),
        ).with(cat_iri("startDuration"@), optional_value(self.start_duration)).with(
            cat_iri("endingDuration"@),
            optional_value(self.ending_duration),
        ).with(cat_iri("subEquipmentName"@), optional_text_value(self.sub_equipment_name)).with(
            cat_iri("speedInRPM"@),
            optional_value(self.speed_shaker),
        ).with(cat_iri("volumeEvaporationFinal"@), optional_value(self.volume_evaporation_final))
            .with(alloprop_iri("AFX_0000060"@), optional_value(self.temperature)).with(
            cat_iri("hasSample"@),
            optional_value(self.has_sample),
        ).with(cat_iri("hasSolvent"@), optional_value(self.has_solvent)).with(
            cat_iri("hasWell"@),
            optional_value(self.at_well),
        ).with(cat_iri("preparesProduct"@), nested_value(self.product_identification)).with(
            allores_iri("AFR_0001164"@),
            ValueView::Scalar(string_literal(self.product_identification.peak_identifier@)),
        ).with(cat_iri("hasCartridge"@), optional_value(self.has_cartridge)).with(
            cat_iri("order"@),
            optional_text_value(self.order),
        ).with(alloqual_iri("AFQ_0000111"@), optional_text_value(self.dispense_state)).with(
            cat_iri("dispenseType"@),
            optional_text_value(self.dispense_type),
        )
    }
}

impl InsertIntoGraph for BravoAction {
    open spec fn node(&self) -> NodeView {
        self.body().with(cat_iri("isSpmeProcess"@), optional_flag_value(self.spme_process))
    }

    fn describe(&self) -> (node: Node)
        ensures
            node@ == self.node(),
    {
        let class = match self.action_name {
            ActionName::AddAction => ActionName::BravoAddAction,
            other => other,
        };
        let mut node = Node::anonymous();
        node.attach(rdf_type(), Value::term(class.iri()));
        node.attach(allores("AFX_0000622"), Value::typed(self.start_time.as_str(), "dateTime"));
        node.attach(allores("AFR_0002423"), Value::typed(self.ending_time.as_str(), "dateTime"));
        node.attach(allores("AFR_0001606"), Value::optional_text(&self.method_name));
        node.attach(allores("AFR_0001723"), Value::text(self.equipment_name.as_str()));
        node.attach(cat("startDuration"), Value::optional(&self.start_duration));
        node.attach(cat("endingDuration"), Value::optional(&self.ending_duration));
        node.attach(cat("subEquipmentName"), Value::optional_text(&self.sub_equipment_name));
        node.attach(cat("speedInRPM"), Value::optional(&self.speed_shaker));
        node.attach(cat("volumeEvaporationFinal"), Value::optional(&self.volume_evaporation_final));
        node.attach(alloprop("AFX_0000060"), Value::optional(&self.temperature));
        node.attach(cat("hasSample"), Value::optional(&self.has_sample));
        node.attach(cat("hasSolvent"), Value::optional(&self.has_solvent));
        node.attach(cat("hasWell"), Value::optional(&self.at_well));
        node.attach(cat("preparesProduct"), Value::nested(&self.product_identification));
        node.attach(
            allores("AFR_0001164"),
            Value::text(self.product_identification.peak_identifier.as_str()),
        );
        node.attach(cat("hasCartridge"), Value::optional(&self.has_cartridge));
        node.attach(cat("order"), Value::optional_text(&self.order));
        node.attach(alloqual("AFQ_0000111"), Value::optional_text(&self.dispense_state));
        node.attach(cat("dispenseType"), Value::optional_text(&self.dispense_type));
        node.attach(cat("isSpmeProcess"), optional_flag(self.spme_process));
        node
    }
}

/// A cartridge used in solid-phase extraction.
#[derive(Clone, Debug)]
pub struct Cartridge {
    pub cartridge_name: String,
    pub cartridge_composition: String,
}

impl InsertIntoGraph for Cartridge {
    open spec fn node(&self) -> NodeView {
        NodeView::anonymous().with(rdf_type_iri(), ValueView::Scalar(cat_iri("Cartridge"@))).with(
            cat_iri("cartridgeName"@),
            ValueView::Scalar(string_literal(self.cartridge_name@)),
        ).with(
            cat_iri("cartridgeComposition"@),
            ValueView::Scalar(string_literal(self.cartridge_composition@)),
        )
    }

    fn describe(&self) -> (node: Node)
        ensures
            node@ == self.node(),
    {
        let mut node = Node::anonymous();
        node.attach(rdf_type(), Value::term(cat("Cartridge")));
        node.attach(cat("cartridgeName"), Value::text(self.cartridge_name.as_str()));
        node.attach(cat("cartridgeComposition"), Value::text(self.cartridge_composition.as_str()));
        node
    }
}

/// A solvent: a chemical and its volume.
#[derive(Clone, Debug)]
pub struct Solvent {
    pub has_chemical: Chemical,
    pub volume: Observation,
}

impl InsertIntoGraph for Solvent {
    open spec fn node(&self) -> NodeView {
        NodeView::anonymous().with(rdf_type_iri(), ValueView::Scalar(cat_iri("Solvent"@))).with(
            cat_iri("hasChemical"@),
            nested_value(self.has_chemical),
        ).with(cat_iri("volume"@), nested_value(self.volume))
    }

    fn describe(&self) -> (node: Node)
        ensures
            node@ == self.node(),
    {
        let mut node = Node::anonymous();
        node.attach(rdf_type(), Value::term(cat("Solvent")));
        node.attach(cat("hasChemical"), Value::nested(&self.has_chemical));
        node.attach(cat("volume"), Value::nested(&self.volume));
        node
    }
}

/// A position on a plate of the Bravo.
#[derive(Clone, Debug)]
pub struct BravoWell {
    pub has_plate: Plate,
    pub position: String,
}

impl InsertIntoGraph for BravoWell {
    open spec fn node(&self) -> NodeView {
        NodeView::anonymous().with(rdf_type_iri(), ValueView::Scalar(cat_iri("Well"@))).with(
            cat_iri("hasPlate"@),
            nested_value(self.has_plate),
        ).with(allores_iri("AFR_0002240"@), ValueView::Scalar(string_literal(self.position@)))
    }

    fn describe(&self) -> (node: Node)
        ensures
            node@ == self.node(),
    {
        let mut node = Node::anonymous();
        node.attach(rdf_type(), Value::term(cat("Well")));
        node.attach(cat("hasPlate"), Value::nested(&self.has_plate));
        node.attach(allores("AFR_0002240"), Value::text(self.position.as_str()));
        node
    }
}

/// The product that an action prepares. Its sample identifier is its
/// natural key. The peak identifier is written on the action, not here.
#[derive(Clone, Debug)]
pub struct BravoProduct {
    pub sample_id: String,
    pub peak_identifier: String,
}

impl InsertIntoGraph for BravoProduct {
    open spec fn node(&self) -> NodeView {
        NodeView::keyed(self.sample_id@).with(
            rdf_type_iri(),
            ValueView::Scalar(cat_iri("Product"@)),
        ).with(purl_iri("identifier"@), ValueView::Scalar(string_literal(self.sample_id@)))
    }

    fn describe(&self) -> (node: Node)
        ensures
            node@ == self.node(),
    {
        let mut node = Node::keyed(self.sample_id.as_str());
        node.attach(rdf_type(), Value::term(cat("Product")));
        node.attach(purl("identifier"), Value::text(self.sample_id.as_str()));
        node
    }
}

/// The sample that an action of the Bravo works on.
#[derive(Clone, Debug)]
pub struct BravoSample {
    pub has_well: Well,
}

impl InsertIntoGraph for BravoSample {
    open spec fn node(&self) -> NodeView {
        NodeView::anonymous().with(rdf_type_iri(), ValueView::Scalar(cat_iri("Sample"@))).with(
            cat_iri("hasWell"@),
            nested_value(self.has_well),
        )
    }

    fn describe(&self) -> (node: Node)
        ensures
            node@ == self.node(),
    {
        let mut node = Node::anonymous();
        node.attach(rdf_type(), Value::term(cat("Sample")));
        node.attach(cat("hasWell"), Value::nested(&self.has_well));
        node
    }
}

/// The flag of the solid-phase micro-extraction is written once, as
/// `true` or `false` of type `xsd:boolean`, after all other fields of the
/// action, and not at all where the action has none.
pub proof fn flag_is_written_once_or_not_at_all(
    action: BravoAction,
    subject: TermView,
    labels: Seq<Seq<char>>,
)
    ensures
        node_triples(action.node(), subject, labels) == node_triples(
            action.body(),
            subject,
            labels,
        ) + match action.spme_process {
            Some(true) => seq![
                TripleView {
                    subject,
                    predicate: cat_iri("isSpmeProcess"@),
                    object: xsd_literal("true"@, "boolean"@),
                },
            ],
            Some(false) => seq![
                TripleView {
                    subject,
                    predicate: cat_iri("isSpmeProcess"@),
                    object: xsd_literal("false"@, "boolean"@),
                },
            ],
            None => Seq::<TripleView>::empty(),
        },
{
    field_contributes_its_own_triples(
        action.body(),
        cat_iri("isSpmeProcess"@),
        optional_flag_value(action.spme_process),
        subject,
        labels,
    );
}

} // verus!
