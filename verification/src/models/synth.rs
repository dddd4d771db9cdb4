//! The records of the synthesis platform.

use vstd::prelude::*;
use vstd::string::StringExecFns;
use crate::emission::emit_items;
use crate::emission::emit_value;
use crate::emission::field_contributes_its_own_triples;
use crate::emission::fields_demand;
use crate::emission::items_demand;
use crate::emission::node_triples;
use crate::emission::repeated_entities_are_linked_one_by_one;
use crate::insert_into::InsertIntoGraph;
use crate::term::TermView;
use crate::term::TripleView;
use crate::node::Link;
use crate::node::Node;
use crate::node::NodeView;
use crate::node::Value;
use crate::node::ValueView;
use crate::insert_into::linked_value;
use crate::insert_into::nested_value;
use crate::node::optional_text_value;
use crate::insert_into::optional_value;
use crate::insert_into::repeated_value;
use crate::models::base::Chemical;
use crate::models::base::Observation;
use crate::models::base::Plate;
use crate::models::enums::ActionName;
use crate::vocab::allores;
use crate::vocab::allores_iri;
use crate::vocab::alloproc;
use crate::vocab::alloproc_iri;
use crate::vocab::alloprop;
use crate::vocab::alloprop_iri;
use crate::vocab::alloqual;
use crate::vocab::alloqual_iri;
use crate::vocab::cat;
use crate::vocab::cat_iri;
use crate::vocab::purl;
use crate::vocab::purl_iri;
use crate::vocab::qudt;
use crate::vocab::qudt_iri;
use crate::vocab::rdf_type;
use crate::vocab::rdf_type_iri;
use crate::vocab::string_literal;
use crate::vocab::xsd_literal;

verus! {

/// A batch of the synthesis platform: the actions it ran.
#[derive(Clone, Debug)]
pub struct SynthBatch {
    pub batch_id: String,
    pub actions: Vec<SynthAction>,
}

/// The identifier of the product that an addition into `well` contributes
/// to: the container and the position, joined by a hyphen.
pub open spec fn product_id(well: SynthWell) -> Seq<char> {
    well.has_plate.container_id@ + "-"@ + well.position@
}

/// The product that an addition into `well` contributes to. Its
/// identifier is its natural key: every addition into the well contributes
/// to the one product.
pub open spec fn product_node(well: SynthWell) -> NodeView {
    NodeView::keyed(product_id(well)).with(rdf_type_iri(), ValueView::Scalar(cat_iri("Product"@))).with(
        purl_iri("identifier"@),
        ValueView::Scalar(string_literal(product_id(well))),
    )
}

/// The class under which the synthesis platform records an action: its
/// additions have a class of their own.
pub open spec fn synth_action_class(name: ActionName) -> ActionName {
    if name == ActionName::AddAction {
        ActionName::SynthAddAction
    } else {
        name
    }
}

/// An addition, as it is recorded for one of its wells.
pub open spec fn add_action_node(action: SynthAction, well: SynthWell) -> NodeView {
    NodeView::anonymous().with(
        rdf_type_iri(),
        ValueView::Scalar(synth_action_class(action.action_name).iri_view()),
    ).with(
        allores_iri("AFX_0000622"@),
        ValueView::Scalar(xsd_literal(action.start_time@, "dateTime"@)),
    ).with(
        allores_iri("AFR_0002423"@),
        ValueView::Scalar(xsd_literal(action.ending_time@, "dateTime"@)),
    ).with(allores_iri("AFR_0001606"@), ValueView::Scalar(string_literal(action.method_name@)))
        .with(
        allores_iri("AFR_0001723"@),
        ValueView::Scalar(string_literal(action.equipment_name@)),
    ).with(
        cat_iri("subEquipmentName"@),
        ValueView::Scalar(string_literal(action.sub_equipment_name@)),
    ).with(alloqual_iri("AFQ_0000111"@), optional_text_value(action.dispense_state)).with(
        cat_iri("dispenseType"@),
        optional_text_value(action.dispense_type),
    ).with(cat_iri("hasSample"@), optional_value(action.has_sample)).with(
        qudt_iri("quantity"@),
        nested_value(well.quantity),
    ).with(cat_iri("hasWell"@), nested_value(well)).with(
        cat_iri("producesProduct"@),
        ValueView::Entity(Link::Forward, product_node(well)),
    )
}

/// What an action contributes to its batch. An addition is recorded once
/// for each of its wells, so that each record contributes to one product;
/// without wells it is not recorded. Every other action is recorded once.
/// Each record points to the batch.
pub open spec fn action_value(action: SynthAction) -> ValueView {
    if action.action_name == ActionName::AddAction {
        match action.has_well {
            Some(wells) => ValueView::Repeated(
                wells@.map_values(
                    |well: SynthWell|
                        ValueView::Entity(Link::Reverse, add_action_node(action, well)),
                ),
            ),
            None => ValueView::Absent,
        }
    } else {
        linked_value(Link::Reverse, action)
    }
}

/// Builds the product that an addition into `well` contributes to.
pub fn product_of(well: &SynthWell) -> (node: Node)
    ensures
        node@ == product_node(*well),
{
    let mut id = String::from_str(well.has_plate.container_id.as_str());
    id.append("-");
    id.append(well.position.as_str());
    let mut node = Node::keyed(id.as_str());
    node.attach(rdf_type(), Value::term(cat("Product")));
    node.attach(purl("identifier"), Value::text(id.as_str()));
    node
}

/// Builds the record of an addition for one of its wells.
pub fn add_action_for(action: &SynthAction, well: &SynthWell) -> (node: Node)
    ensures
        node@ == add_action_node(*action, *well),
{
    let class = match action.action_name {
        ActionName::AddAction => ActionName::SynthAddAction,
        other => other,
    };
    let mut node = Node::anonymous();
    node.attach(rdf_type(), Value::term(class.iri()));
    node.attach(allores("AFX_0000622"), Value::typed(action.start_time.as_str(), "dateTime"));
    node.attach(allores("AFR_0002423"), Value::typed(action.ending_time.as_str(), "dateTime"));
    node.attach(allores("AFR_0001606"), Value::text(action.method_name.as_str()));
    node.attach(allores("AFR_0001723"), Value::text(action.equipment_name.as_str()));
    node.attach(cat("subEquipmentName"), Value::text(action.sub_equipment_name.as_str()));
    node.attach(alloqual("AFQ_0000111"), Value::optional_text(&action.dispense_state));
    node.attach(cat("dispenseType"), Value::optional_text(&action.dispense_type));
    node.attach(cat("hasSample"), Value::optional(&action.has_sample));
    node.attach(qudt("quantity"), Value::nested(&well.quantity));
    node.attach(cat("hasWell"), Value::nested(well));
    node.attach(cat("producesProduct"), Value::Entity(Link::Forward, product_of(well)));
    node
}

/// Builds what an action contributes to its batch.
pub fn action_records(action: &SynthAction) -> (value: Value)
    ensures
        value@ == action_value(*action),
{
    match action.action_name {
        ActionName::AddAction => match &action.has_well {
            Some(wells) => {
                let mut items: Vec<Value> = Vec::new();
                let mut i: usize = 0;
                while i < wells.len()
                    invariant
                        i <= wells.len(),
                        items@.len() == i,
                        forall|j: int|
                            0 <= j < i ==> (#[trigger] items@[j])@ == ValueView::Entity(
                                Link::Reverse,
                                add_action_node(*action, wells@[j]),
                            ),
                    decreases wells.len() - i,
                {
                    items.push(Value::Entity(Link::Reverse, add_action_for(action, &wells[i])));
                    i += 1;
                }
                assert(items@.map_values(|item: Value| item@) =~= wells@.map_values(
                    |well: SynthWell|
                        ValueView::Entity(Link::Reverse, add_action_node(*action, well)),
                ));
                Value::repeated(items)
            },
            None => Value::Absent,
        },
        _ => Value::linked(Link::Reverse, action),
    }
}

impl InsertIntoGraph for SynthBatch {
    /// The identifier of a batch is its natural key.
    open spec fn node(&self) -> NodeView {
        NodeView::keyed(self.batch_id@).with(rdf_type_iri(), ValueView::Scalar(cat_iri("Batch"@))).with(
            purl_iri("identifier"@),
            ValueView::Scalar(string_literal(self.batch_id@)),
        ).with(
            cat_iri("hasBatch"@),
            ValueView::Repeated(self.actions@.map_values(|action: SynthAction| action_value(action))),
        )
    }

    fn describe(&self) -> (node: Node)
        ensures
            node@ == self.node(),
    {
        let mut node = Node::keyed(self.batch_id.as_str());
        node.attach(rdf_type(), Value::term(cat("Batch")));
        node.attach(purl("identifier"), Value::text(self.batch_id.as_str()));
        let mut items: Vec<Value> = Vec::new();
        let mut i: usize = 0;
        while i < self.actions.len()
            invariant
                i <= self.actions.len(),
                items@.len() == i,
                forall|j: int|
                    0 <= j < i ==> (#[trigger] items@[j])@ == action_value(self.actions@[j]),
            decreases self.actions.len() - i,
        {
            items.push(action_records(&self.actions[i]));
            i += 1;
        }
        assert(items@.map_values(|item: Value| item@) =~= self.actions@.map_values(
            |action: SynthAction| action_value(action),
        ));
        node.attach(cat("hasBatch"), Value::repeated(items));
        node
    }
}

/// One action of the synthesis platform.
#[derive(Clone, Debug)]
pub struct SynthAction {
    pub action_name: ActionName,
    pub start_time: String,
    pub ending_time: String,
    pub method_name: String,
    pub equipment_name: String,
    pub sub_equipment_name: String,
    pub has_plate: Option<Plate>,
    pub speed_shaker: Option<Observation>,
    pub speed_tumble_stirrer: Option<Observation>,
    pub temperature_tumble_stirrer: Option<Observation>,
    pub temperature_shaker: Option<Observation>,
    pub pressure_measurement: Option<Observation>,
    pub vacuum: Option<Observation>,
    /// The wells of an addition.
    pub has_well: Option<Vec<SynthWell>>,
    pub dispense_state: Option<String>,
    pub dispense_type: Option<String>,
    pub has_sample: Option<SynthSample>,
}

impl InsertIntoGraph for SynthAction {
    open spec fn node(&self) -> NodeView {
        NodeView::anonymous().with(
            rdf_type_iri(),
            ValueView::Scalar(self.action_name.iri_view()),
        ).with(
            allores_iri("AFX_0000622"@),
            ValueView::Scalar(xsd_literal(self.start_time@, "dateTime"@)),
        ).with(
            allores_iri("AFR_0002423"@),
            ValueView::Scalar(xsd_literal(self.ending_time@, "dateTime"@)),
        ).with(allores_iri("AFR_0001606"@), ValueView::Scalar(string_literal(self.method_name@)))
            .with(
            allores_iri("AFR_0001723"@),
            ValueView::Scalar(string_literal(self.equipment_name@)),
        ).with(
            cat_iri("subEquipmentName"@),
            ValueView::Scalar(string_literal(self.sub_equipment_name@)),
        ).with(cat_iri("speedInRPM"@), optional_value(self.speed_shaker)).with(
            cat_iri("temperatureTumbleStirrer"@),
            optional_value(self.temperature_tumble_stirrer),
        ).with(alloprop_iri("AFX_0000211"@), optional_value(self.speed_tumble_stirrer)).with(
            cat_iri("vacuum"@),
            optional_value(self.vacuum),
        ).with(cat_iri("temperatureShaker"@), optional_value(self.temperature_shaker)).with(
            alloproc_iri("AFP_0002677"@),
            optional_value(self.pressure_measurement),
        ).with(cat_iri("hasPlate"@), optional_value(self.has_plate))
    }

    fn describe(&self) -> (node: Node)
        ensures
            node@ == self.node(),
    {
        let mut node = Node::anonymous();
        node.attach(rdf_type(), Value::term(self.action_name.iri()));
        node.attach(allores("AFX_0000622"), Value::typed(self.start_time.as_str(), "dateTime"));
        node.attach(allores("AFR_0002423"), Value::typed(self.ending_time.as_str(), "dateTime"));
        node.attach(allores("AFR_0001606"), Value::text(self.method_name.as_str()));
        node.attach(allores("AFR_0001723"), Value::text(self.equipment_name.as_str()));
        node.attach(cat("subEquipmentName"), Value::text(self.sub_equipment_name.as_str()));
        node.attach(cat("speedInRPM"), Value::optional(&self.speed_shaker));
        node.attach(
            cat("temperatureTumbleStirrer"),
            Value::optional(&self.temperature_tumble_stirrer),
        );
        node.attach(alloprop("AFX_0000211"), Value::optional(&self.speed_tumble_stirrer));
        node.attach(cat("vacuum"), Value::optional(&self.vacuum));
        node.attach(cat("temperatureShaker"), Value::optional(&self.temperature_shaker));
        node.attach(alloproc("AFP_0002677"), Value::optional(&self.pressure_measurement));
        node.attach(cat("hasPlate"), Value::optional(&self.has_plate));
        node
    }
}

/// A well that an addition dispenses into. The quantity is written on the
/// action, not on the well.
#[derive(Clone, Debug)]
pub struct SynthWell {
    pub has_plate: Plate,
    pub position: String,
    pub quantity: Observation,
}

impl InsertIntoGraph for SynthWell {
    open spec fn node(&self) -> NodeView {
        NodeView::anonymous().with(rdf_type_iri(), ValueView::Scalar(cat_iri("Well"@))).with(
            cat_iri("hasPlate"@),
            nested_value(self.has_plate),
        ).with(allores_iri("AFR_0002240"@), ValueView::Scalar(string_literal(self.position@)))
    }

    fn describe(&self) -> (node: Node)
        ensures
            node@ == self.node(),
    {
        let mut node = Node::anonymous();
        node.attach(rdf_type(), Value::term(cat("Well")));
        node.attach(cat("hasPlate"), Value::nested(&self.has_plate));
        node.attach(allores("AFR_0002240"), Value::text(self.position.as_str()));
        node
    }
}

/// The vial that an addition takes from, with what it holds.
#[derive(Clone, Debug)]
pub struct SynthSample {
    pub has_plate: Plate,
    pub vial_id: String,
    pub vial_type: String,
    pub role: String,
    pub expected_datum: Observation,
    pub has_sample: Vec<SampleItem>,
}

impl SynthSample {
    /// The table of the vial up to its last field, the substances in it.
    pub open spec fn body(&self) -> NodeView {
        NodeView::anonymous().with(rdf_type_iri(), ValueView::Scalar(cat_iri("Sample"@))).with(
            cat_iri("hasPlate"@),
            nested_value(self.has_plate),
        ).with(cat_iri("role"@), ValueView::Scalar(string_literal(self.role@))).with(
            cat_iri("vialType"@),
            ValueView::Scalar(string_literal(self.vial_type@)),
        ).with(allores_iri("AFR_0002464"@), ValueView::Scalar(string_literal(self.vial_id@)))
            .with(cat_iri("expectedDatum"@), nested_value(self.expected_datum))
    }
}

impl InsertIntoGraph for SynthSample {
    open spec fn node(&self) -> NodeView {
        self.body().with(cat_iri("hasSample"@), repeated_value(self.has_sample@))
    }

    fn describe(&self) -> (node: Node)
        ensures
            node@ == self.node(),
    {
        let mut node = Node::anonymous();
        node.attach(rdf_type(), Value::term(cat("Sample")));
        node.attach(cat("hasPlate"), Value::nested(&self.has_plate));
        node.attach(cat("role"), Value::text(self.role.as_str()));
        node.attach(cat("vialType"), Value::text(self.vial_type.as_str()));
        node.attach(allores("AFR_0002464"), Value::text(self.vial_id.as_str()));
        node.attach(cat("expectedDatum"), Value::nested(&self.expected_datum));
        node.attach(cat("hasSample"), Value::each(&self.has_sample));
        node
    }
}

/// One substance in a vial.
#[derive(Clone, Debug)]
pub struct SampleItem {
    pub sample_id: String,
    pub role: String,
    pub internal_bar_code: String,
    pub expected_datum: Option<Observation>,
    pub measured_quantity: Option<Observation>,
    pub concentration: Option<Observation>,
    pub physical_state: String,
    pub has_chemical: Chemical,
}

impl InsertIntoGraph for SampleItem {
    open spec fn node(&self) -> NodeView {
        NodeView::anonymous().with(rdf_type_iri(), ValueView::Scalar(cat_iri("Sample"@))).with(
            purl_iri("identifier"@),
            ValueView::Scalar(string_literal(self.sample_id@)),
        ).with(cat_iri("role"@), ValueView::Scalar(string_literal(self.role@))).with(
            cat_iri("internalBarCode"@),
            ValueView::Scalar(string_literal(self.internal_bar_code@)),
        ).with(
            alloqual_iri("AFQ_0000111"@),
            ValueView::Scalar(string_literal(self.physical_state@)),
        ).with(cat_iri("expectedDatum"@), optional_value(self.expected_datum)).with(
            cat_iri("measuredQuantity"@),
            optional_value(self.measured_quantity),
        ).with(allores_iri("AFR_0002036"@), optional_value(self.concentration)).with(
            cat_iri("hasChemical"@),
            nested_value(self.has_chemical),
        )
    }

    fn describe(&self) -> (node: Node)
        ensures
            node@ == self.node(),
    {
        let mut node = Node::anonymous();
        node.attach(rdf_type(), Value::term(cat("Sample")));
        node.attach(purl("identifier"), Value::text(self.sample_id.as_str()));
        node.attach(cat("role"), Value::text(self.role.as_str()));
        node.attach(cat("internalBarCode"), Value::text(self.internal_bar_code.as_str()));
        node.attach(alloqual("AFQ_0000111"), Value::text(self.physical_state.as_str()));
        node.attach(cat("expectedDatum"), Value::optional(&self.expected_datum));
        node.attach(cat("measuredQuantity"), Value::optional(&self.measured_quantity));
        node.attach(allores("AFR_0002036"), Value::optional(&self.concentration));
        node.attach(cat("hasChemical"), Value::nested(&self.has_chemical));
        node
    }
}

/// The substances of a vial are written after all its other fields, each
/// tied to the vial by a triple of its own and described in turn, in the
/// order of the list: none is dropped and none is written twice. A vial
/// without substances has no such triple.
pub proof fn sample_items_are_linked_one_by_one(
    sample: SynthSample,
    subject: TermView,
    labels: Seq<Seq<char>>,
    j: int,
)
    requires
        0 <= j < sample.has_sample@.len(),
    ensures
        node_triples(sample.node(), subject, labels) == node_triples(
            sample.body(),
            subject,
            labels,
        ) + emit_value(
            subject,
            cat_iri("hasSample"@),
            repeated_value(sample.has_sample@),
            labels,
            fields_demand(sample.body().fields, sample.body().fields.len()),
        ),
        emit_value(
            subject,
            cat_iri("hasSample"@),
            repeated_value(sample.has_sample@),
            labels,
            fields_demand(sample.body().fields, sample.body().fields.len()),
        ).contains(
            TripleView {
                subject,
                predicate: cat_iri("hasSample"@),
                object: TermView::BlankNode(
                    labels[(fields_demand(sample.body().fields, sample.body().fields.len())
                        + items_demand(
                        sample.has_sample@.map_values(|item: SampleItem| nested_value(item)),
                        j as nat,
                    )) as int],
                ),
            },
        ),
{
    field_contributes_its_own_triples(
        sample.body(),
        cat_iri("hasSample"@),
        repeated_value(sample.has_sample@),
        subject,
        labels,
    );
    let nodes = sample.has_sample@.map_values(|item: SampleItem| item.node());
    let items = sample.has_sample@.map_values(|item: SampleItem| nested_value(item));
    let from = fields_demand(sample.body().fields, sample.body().fields.len());
    assert(nodes.map_values(|node: NodeView| ValueView::Entity(Link::Forward, node)) =~= items);
    repeated_entities_are_linked_one_by_one(
        subject,
        cat_iri("hasSample"@),
        nodes,
        nodes.len(),
        labels,
        from,
        j,
    );
    assert(nodes[j] == sample.has_sample@[j].node());
    assert(nodes[j].identity is Anonymous);
    assert(sample.has_sample@.map_values(
        |entity: SampleItem| linked_value(Link::Forward, entity),
    ) =~= items);
    assert(repeated_value(sample.has_sample@) == ValueView::Repeated(items));
    assert(emit_value(subject, cat_iri("hasSample"@), ValueView::Repeated(items), labels, from)
        == emit_items(subject, cat_iri("hasSample"@), items, items.len(), labels, from));
}

} // verus!
