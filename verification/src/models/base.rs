//! The records that the instruments share.

use vstd::prelude::*;
use crate::error::GraphError;
use crate::emission::absent_field_produces_no_triple;
use crate::emission::entity_is_described_first_by_its_first_field;
use crate::emission::emit_value;
use crate::emission::entity_triples;
use crate::emission::field_contributes_its_own_triples;
use crate::emission::fields_demand;
use crate::emission::node_triples;
use crate::identity::resource_iri;
use crate::insert_into::InsertIntoGraph;
use crate::insert_into::minted;
use crate::insert_into::root_term;
use crate::node::FieldView;
use crate::store::batch_outcome;
use crate::insert_into::entity_outcome;
use crate::store::StoreState;
use crate::store::TripleStore;
use crate::store::batch_is_written_where_there_is_room;
use crate::store::insertion_outcome;
use crate::store::term_limit;
use crate::store::store_plain;
use crate::term::Term;
use crate::term::TermView;
use crate::term::Triple;
use crate::term::TripleView;
use crate::term::triple_views;
use crate::node::Node;
use crate::node::NodeView;
use crate::node::Value;
use crate::node::ValueView;
use crate::insert_into::nested_value;
use crate::node::optional_text_value;
use crate::insert_into::optional_value;
use crate::insert_into::repeated_value;
use crate::models::enums::Unit;
use crate::vocab::allores;
use crate::vocab::allores_iri;
use crate::vocab::cat;
use crate::vocab::cat_iri;
use crate::vocab::obo;
use crate::vocab::obo_iri;
use crate::vocab::purl;
use crate::vocab::purl_iri;
use crate::vocab::qudt;
use crate::vocab::qudt_iri;
use crate::vocab::rdf_type;
use crate::vocab::rdf_type_iri;
use crate::vocab::schema;
use crate::vocab::schema_iri;
use crate::vocab::string_literal;
use crate::vocab::xsd_literal;

verus! {

/// A plate that holds wells or vials.
#[derive(Clone, Debug)]
pub struct Plate {
    pub container_id: String,
    pub container_barcode: Option<String>,
}

impl InsertIntoGraph for Plate {
    open spec fn node(&self) -> NodeView {
        NodeView::anonymous().with(rdf_type_iri(), ValueView::Scalar(cat_iri("Plate"@))).with(
            cat_iri("containerID"@),
            ValueView::Scalar(string_literal(self.container_id@)),
        ).with(cat_iri("containerBarcode"@), optional_text_value(self.container_barcode))
    }

    fn describe(&self) -> (node: Node)
        ensures
            node@ == self.node(),
    {
        let mut node = Node::anonymous();
        node.attach(rdf_type(), Value::term(cat("Plate")));
        node.attach(cat("containerID"), Value::text(self.container_id.as_str()));
        node.attach(cat("containerBarcode"), Value::optional_text(&self.container_barcode));
        node
    }
}

/// A measured or expected quantity. `value` is the number as it is written
/// in an `xsd:double` literal.
#[derive(Clone, Debug)]
pub struct Observation {
    pub value: String,
    pub unit: Unit,
    pub error_margin: Option<ErrorMargin>,
}

impl InsertIntoGraph for Observation {
    open spec fn node(&self) -> NodeView {
        NodeView::anonymous().with(
            rdf_type_iri(),
            ValueView::Scalar(cat_iri("Observation"@)),
        ).with(qudt_iri("unit"@), ValueView::Scalar(self.unit.iri_view())).with(
            qudt_iri("value"@),
            ValueView::Scalar(xsd_literal(self.value@, "double"@)),
        ).with(cat_iri("errorMargin"@), optional_value(self.error_margin))
    }

    fn describe(&self) -> (node: Node)
        ensures
            node@ == self.node(),
    {
        let mut node = Node::anonymous();
        node.attach(rdf_type(), Value::term(cat("Observation")));
        node.attach(qudt("unit"), Value::term(self.unit.iri()));
        node.attach(qudt("value"), Value::typed(self.value.as_str(), "double"));
        node.attach(cat("errorMargin"), Value::optional(&self.error_margin));
        node
    }
}

/// The margin of error of an observation. `value` is the number as it is
/// written in an `xsd:double` literal.
#[derive(Clone, Debug)]
pub struct ErrorMargin {
    pub value: String,
    pub unit: Unit,
}

impl InsertIntoGraph for ErrorMargin {
    open spec fn node(&self) -> NodeView {
        NodeView::anonymous().with(
            rdf_type_iri(),
            ValueView::Scalar(cat_iri("errorMargin"@)),
        ).with(qudt_iri("unit"@), ValueView::Scalar(self.unit.iri_view())).with(
            qudt_iri("value"@),
            ValueView::Scalar(xsd_literal(self.value@, "double"@)),
        )
    }

    fn describe(&self) -> (node: Node)
        ensures
            node@ == self.node(),
    {
        let mut node = Node::anonymous();
        node.attach(rdf_type(), Value::term(cat("errorMargin")));
        node.attach(qudt("unit"), Value::term(self.unit.iri()));
        node.attach(qudt("value"), Value::typed(self.value.as_str(), "double"));
        node
    }
}

/// A chemical substance. Its InChI is its natural key: the same substance
/// has the same IRI in every document.
#[derive(Clone, Debug)]
pub struct Chemical {
    pub chemical_id: String,
    pub chemical_name: String,
    pub cas_number: Option<String>,
    pub molecular_mass: Observation,
    pub smiles: String,
    pub swiss_cat_number: Option<String>,
    pub inchi: String,
    pub keywords: Option<String>,
    pub molecular_formula: String,
    pub density: Option<Observation>,
}

impl Chemical {
    /// The fields that every chemical has: its class, identifier, name,
    /// formula, SMILES, molecular mass and InChI.
    pub open spec fn required(&self) -> NodeView {
        NodeView::keyed(self.inchi@).with(
            rdf_type_iri(),
            ValueView::Scalar(obo_iri("CHEBI_25367"@)),
        ).with(purl_iri("identifier"@), ValueView::Scalar(string_literal(self.chemical_id@))).with(
            allores_iri("AFR_0002292"@),
            ValueView::Scalar(string_literal(self.chemical_name@)),
        ).with(
            allores_iri("AFR_0001952"@),
            ValueView::Scalar(string_literal(self.molecular_formula@)),
        ).with(allores_iri("AFR_0002295"@), ValueView::Scalar(string_literal(self.smiles@))).with(
            allores_iri("AFR_0002294"@),
            nested_value(self.molecular_mass),
        ).with(allores_iri("AFR_0002296"@), ValueView::Scalar(string_literal(self.inchi@)))
    }
}

impl InsertIntoGraph for Chemical {
    open spec fn node(&self) -> NodeView {
        self.required().with(
            cat_iri("casNumber"@),
            optional_text_value(self.cas_number),
        ).with(cat_iri("swissCatNumber"@), optional_text_value(self.swiss_cat_number)).with(
            schema_iri("keywords"@),
            optional_text_value(self.keywords),
        ).with(obo_iri("PATO_0001019"@), optional_value(self.density))
    }

    fn describe(&self) -> (node: Node)
        ensures
            node@ == self.node(),
    {
        let mut node = Node::keyed(self.inchi.as_str());
        node.attach(rdf_type(), Value::term(obo("CHEBI_25367")));
        node.attach(purl("identifier"), Value::text(self.chemical_id.as_str()));
        node.attach(allores("AFR_0002292"), Value::text(self.chemical_name.as_str()));
        node.attach(allores("AFR_0001952"), Value::text(self.molecular_formula.as_str()));
        node.attach(allores("AFR_0002295"), Value::text(self.smiles.as_str()));
        node.attach(allores("AFR_0002294"), Value::nested(&self.molecular_mass));
        node.attach(allores("AFR_0002296"), Value::text(self.inchi.as_str()));
        node.attach(cat("casNumber"), Value::optional_text(&self.cas_number));
        node.attach(cat("swissCatNumber"), Value::optional_text(&self.swiss_cat_number));
        node.attach(schema("keywords"), Value::optional_text(&self.keywords));
        node.attach(obo("PATO_0001019"), Value::optional(&self.density));
        node
    }
}

/// The peaks found in a chromatogram. Its insertion writes the list and
/// its peaks; [`PeakList::insert_with_product`] also ties the list to the
/// product that the graph holds.
#[derive(Clone, Debug)]
pub struct PeakList {
    pub peak: Vec<Peak>,
}

impl InsertIntoGraph for PeakList {
    open spec fn node(&self) -> NodeView {
        NodeView::anonymous().with(rdf_type_iri(), ValueView::Scalar(cat_iri("PeakList"@))).with(
            cat_iri("peak"@),
            repeated_value(self.peak@),
        )
    }

    fn describe(&self) -> (node: Node)
        ensures
            node@ == self.node(),
    {
        let mut node = Node::anonymous();
        node.attach(rdf_type(), Value::term(cat("PeakList")));
        node.attach(cat("peak"), Value::each(&self.peak));
        node
    }
}

/// A triple that types a product.
pub open spec fn is_product(triple: TripleView) -> bool {
    triple.predicate == rdf_type_iri() && triple.object == cat_iri("Product"@)
}

/// The triple that ties a peak list to a product.
pub open spec fn product_link(list: TermView, product: TermView) -> TripleView {
    TripleView { subject: list, predicate: cat_iri("hasProduct"@), object: product }
}

/// What tying a peak list to a product leaves behind. Without a product
/// in the graph nothing changes. Otherwise the list is tied to one of the
/// products of the graph: which, where there are several, is left open.
/// The tie is the insertion of one triple, and succeeds wherever the store
/// is sure to take it. Every failure leaves the triples as they were.
pub open spec fn product_outcome(
    plain: bool,
    before: StoreState,
    after: StoreState,
    list: TermView,
    res: Result<(), GraphError>,
) -> bool {
    if !plain {
        res == Err::<(), GraphError>(GraphError::UnsupportedTerm) && after == before
    } else if forall|t: TripleView| before.triples.contains(t) ==> !is_product(t) {
        res == Ok::<(), GraphError>(()) && after == before
    } else {
        exists|product: TripleView|
            before.triples.contains(product) && is_product(product) && #[trigger] insertion_outcome(
                before,
                after,
                product_link(list, product.subject),
                res,
            )
    }
}

/// What writing a peak list and tying it to a product leaves behind: where
/// the insertion fails, its outcome; else the outcome of the link on the
/// store that the insertion left.
pub open spec fn listed_and_linked(
    plain: bool,
    before: StoreState,
    after: StoreState,
    node: NodeView,
    list: TermView,
    res: Result<(), GraphError>,
) -> bool {
    ||| res is Err && entity_outcome(before, after, node, list, res)
    ||| exists|between: StoreState| #[trigger]
        entity_outcome(before, between, node, list, Ok::<(), GraphError>(())) && product_outcome(
            plain,
            between,
            after,
            list,
            res,
        )
}

impl PeakList {
    /// Writes the peak list as `iri` into the store, and then ties it to a
    /// product that the graph holds, if it holds one.
    pub fn insert_with_product(&self, graph: &mut TripleStore, iri: Term) -> (res: Result<
        (),
        GraphError,
    >)
        ensures
            store_plain(*final(graph)) == store_plain(*old(graph)),
            listed_and_linked(
                store_plain(*old(graph)),
                old(graph).state(),
                final(graph).state(),
                self.node(),
                iri@,
                res,
            ),
    {
        let list = iri.clone();
        let first = self.insert_into(graph, iri);
        match first {
            Err(e) => Err(e),
            Ok(()) => {
                let ghost between = graph.state();
                assert(first->Ok_0 == ());
                let res = PeakList::link_product(graph, &list);
                assert(entity_outcome(
                    old(graph).state(),
                    between,
                    self.node(),
                    list@,
                    Ok::<(), GraphError>(()),
                ) && product_outcome(store_plain(*old(graph)), between, graph.state(), list@, res));
                res
            },
        }
    }

    /// Ties the peak list `iri` to a product that the graph already holds,
    /// if it holds one.
    pub fn link_product(graph: &mut TripleStore, iri: &Term) -> (res: Result<(), GraphError>)
        ensures
            store_plain(*final(graph)) == store_plain(*old(graph)),
            product_outcome(
                store_plain(*old(graph)),
                old(graph).state(),
                final(graph).state(),
                iri@,
                res,
            ),
    {
        let type_term = rdf_type();
        let class = cat("Product");
        let products = match graph.matching(None, Some(&type_term), Some(&class)) {
            Ok(products) => products,
            Err(e) => {
                return Err(e);
            },
        };
        let ghost views = triple_views(products@);
        let ghost before = graph@;
        if products.len() == 0 {
            assert forall|t: TripleView| before.contains(t) implies !is_product(t) by {
                if is_product(t) {
                    assert(views.to_set().contains(t));
                    let j = choose|j: int| 0 <= j < views.len() && views[j] == t;
                }
            }
            return Ok(());
        }
        let product = &products[0];
        proof {
            assert(views.to_set().contains(views[0]));
            assert(before.contains(views[0]) && is_product(views[0]));
        }
        let link = Triple::new(iri.clone(), cat("hasProduct"), product.subject.clone());
        assert(link@ == product_link(iri@, product@.subject));
        let res = match graph.insert(&link) {
            Ok(_) => Ok(()),
            Err(e) => Err(e),
        };
        proof {
            let found = views[0];
            assert(before.contains(found) && is_product(found) && insertion_outcome(
                old(graph).state(),
                graph.state(),
                product_link(iri@, found.subject),
                res,
            ));
        }
        res
    }
}

/// One peak of a chromatogram.
#[derive(Clone, Debug)]
pub struct Peak {
    pub index: i64,
    pub peak_identifier: String,
    pub peak_area: Measurement,
    pub retention_time: Measurement,
    pub peak_start: Measurement,
    pub peak_end: Measurement,
    pub peak_height: Measurement,
    pub relative_peak_area: Measurement,
    pub relative_peak_height: Measurement,
    pub peak_value_at_start: Measurement,
    pub peak_value_at_end: Measurement,
}

impl InsertIntoGraph for Peak {
    open spec fn node(&self) -> NodeView {
        NodeView::anonymous().with(
            rdf_type_iri(),
            ValueView::Scalar(allores_iri("AFR_0000413"@)),
        ).with(
            allores_iri("AFR_0001164"@),
            ValueView::Scalar(string_literal(self.peak_identifier@)),
        ).with(allores_iri("AFR_0001073"@), nested_value(self.peak_area)).with(
            allores_iri("AFR_0001089"@),
            nested_value(self.retention_time),
        ).with(allores_iri("AFR_0001178"@), nested_value(self.peak_start)).with(
            allores_iri("AFR_0001180"@),
            nested_value(self.peak_end),
        ).with(allores_iri("AFR_0000948"@), nested_value(self.peak_height)).with(
            allores_iri("AFR_0001165"@),
            nested_value(self.relative_peak_area),
        ).with(allores_iri("AFR_0000949"@), nested_value(self.relative_peak_height)).with(
            allores_iri("AFR_0001179"@),
            nested_value(self.peak_value_at_start),
        ).with(allores_iri("AFR_0001181"@), nested_value(self.peak_value_at_end))
    }

    fn describe(&self) -> (node: Node)
        ensures
            node@ == self.node(),
    {
        let mut node = Node::anonymous();
        node.attach(rdf_type(), Value::term(allores("AFR_0000413")));
        node.attach(allores("AFR_0001164"), Value::text(self.peak_identifier.as_str()));
        node.attach(allores("AFR_0001073"), Value::nested(&self.peak_area));
        node.attach(allores("AFR_0001089"), Value::nested(&self.retention_time));
        node.attach(allores("AFR_0001178"), Value::nested(&self.peak_start));
        node.attach(allores("AFR_0001180"), Value::nested(&self.peak_end));
        node.attach(allores("AFR_0000948"), Value::nested(&self.peak_height));
        node.attach(allores("AFR_0001165"), Value::nested(&self.relative_peak_area));
        node.attach(allores("AFR_0000949"), Value::nested(&self.relative_peak_height));
        node.attach(allores("AFR_0001179"), Value::nested(&self.peak_value_at_start));
        node.attach(allores("AFR_0001181"), Value::nested(&self.peak_value_at_end));
        node
    }
}

/// A number with its unit. `value` is the number as it is written in an
/// `xsd:double` literal.
#[derive(Clone, Debug)]
pub struct Measurement {
    pub value: String,
    pub unit: Unit,
}

impl InsertIntoGraph for Measurement {
    open spec fn node(&self) -> NodeView {
        NodeView::anonymous().with(
            rdf_type_iri(),
            ValueView::Scalar(cat_iri("Measurement"@)),
        ).with(qudt_iri("unit"@), ValueView::Scalar(self.unit.iri_view())).with(
            qudt_iri("value"@),
            ValueView::Scalar(xsd_literal(self.value@, "double"@)),
        )
    }

    fn describe(&self) -> (node: Node)
        ensures
            node@ == self.node(),
    {
        let mut node = Node::anonymous();
        node.attach(rdf_type(), Value::term(cat("Measurement")));
        node.attach(qudt("unit"), Value::term(self.unit.iri()));
        node.attach(qudt("value"), Value::typed(self.value.as_str(), "double"));
        node
    }
}

/// A position on a plate.
#[derive(Clone, Debug)]
pub struct Well {
    pub has_plate: Plate,
    pub position: String,
}

impl InsertIntoGraph for Well {
    open spec fn node(&self) -> NodeView {
        NodeView::anonymous().with(rdf_type_iri(), ValueView::Scalar(cat_iri("Well"@))).with(
            cat_iri("hasPlate"@),
            nested_value(self.has_plate),
        ).with(allores_iri("AFR_0002240"@), ValueView::Scalar(string_literal(self.position@)))
    }

    fn describe(&self) -> (node: Node)
        ensures
            node@ == self.node(),
    {
        let mut node = Node::anonymous();
        node.attach(rdf_type(), Value::term(cat("Well")));
        node.attach(cat("hasPlate"), Value::nested(&self.has_plate));
        node.attach(allores("AFR_0002240"), Value::text(self.position.as_str()));
        node
    }
}

/// The set that a successful insertion of a batch leaves: the old graph
/// and the batch.
pub proof fn written_batch_is_added(
    before: StoreState,
    after: StoreState,
    batch: Seq<TripleView>,
    res: Result<(), GraphError>,
)
    requires
        batch_outcome(before, after, batch, res),
        res is Ok,
    ensures
        after.triples == before.triples.union(batch.to_set()),
        forall|i: int| 0 <= i < batch.len() ==> (#[trigger] batch[i]).well_formed(),
{
}

/// An observation without a margin of error is described by three
/// triples: its class, its unit and its value. No triple tells of a
/// margin.
pub proof fn observation_without_margin_is_three_triples(
    observation: Observation,
    subject: TermView,
    labels: Seq<Seq<char>>,
)
    requires
        observation.error_margin is None,
    ensures
        fields_demand(observation.node().fields, observation.node().fields.len()) == 0,
        node_triples(observation.node(), subject, labels) == seq![
            TripleView { subject, predicate: rdf_type_iri(), object: cat_iri("Observation"@) },
            TripleView {
                subject,
                predicate: qudt_iri("unit"@),
                object: observation.unit.iri_view(),
            },
            TripleView {
                subject,
                predicate: qudt_iri("value"@),
                object: xsd_literal(observation.value@, "double"@),
            },
        ],
{
    let start = NodeView::anonymous();
    let typed = start.with(rdf_type_iri(), ValueView::Scalar(cat_iri("Observation"@)));
    let with_unit = typed.with(qudt_iri("unit"@), ValueView::Scalar(observation.unit.iri_view()));
    let with_value = with_unit.with(
        qudt_iri("value"@),
        ValueView::Scalar(xsd_literal(observation.value@, "double"@)),
    );
    field_contributes_its_own_triples(
        start,
        rdf_type_iri(),
        ValueView::Scalar(cat_iri("Observation"@)),
        subject,
        labels,
    );
    field_contributes_its_own_triples(
        typed,
        qudt_iri("unit"@),
        ValueView::Scalar(observation.unit.iri_view()),
        subject,
        labels,
    );
    field_contributes_its_own_triples(
        with_unit,
        qudt_iri("value"@),
        ValueView::Scalar(xsd_literal(observation.value@, "double"@)),
        subject,
        labels,
    );
    field_contributes_its_own_triples(
        with_value,
        cat_iri("errorMargin"@),
        ValueView::Absent,
        subject,
        labels,
    );
    assert(node_triples(start, subject, labels) =~= Seq::<TripleView>::empty());
    assert(fields_demand(start.fields, start.fields.len()) == 0);
    assert(node_triples(observation.node(), subject, labels) =~= seq![
        TripleView { subject, predicate: rdf_type_iri(), object: cat_iri("Observation"@) },
        TripleView { subject, predicate: qudt_iri("unit"@), object: observation.unit.iri_view() },
        TripleView {
            subject,
            predicate: qudt_iri("value"@),
            object: xsd_literal(observation.value@, "double"@),
        },
    ]);
}

/// The three triples of an observation without a margin of error.
pub open spec fn plain_observation(observation: Observation, subject: TermView) -> Seq<TripleView> {
    seq![
        TripleView { subject, predicate: rdf_type_iri(), object: cat_iri("Observation"@) },
        TripleView { subject, predicate: qudt_iri("unit"@), object: observation.unit.iri_view() },
        TripleView {
            subject,
            predicate: qudt_iri("value"@),
            object: xsd_literal(observation.value@, "double"@),
        },
    ]
}

/// The insertion of an observation without a margin of error succeeds
/// wherever its three triples are well formed and the store has room for
/// them. On success the graph gains the three triples and nothing else: no
/// triple tells of a margin.
pub proof fn observation_without_margin_adds_three_triples(
    observation: Observation,
    subject: TermView,
    before: StoreState,
    after: StoreState,
    res: Result<(), GraphError>,
)
    requires
        observation.error_margin is None,
        entity_outcome(before, after, observation.node(), subject, res),
    ensures
        (forall|i: int| 0 <= i < 3 ==> (#[trigger] plain_observation(
            observation,
            subject,
        )[i]).well_formed()) && before.terms + 9 <= term_limit() ==> res is Ok,
        res is Ok ==> after.triples == before.triples.insert(
            plain_observation(observation, subject)[0],
        ).insert(plain_observation(observation, subject)[1]).insert(
            plain_observation(observation, subject)[2],
        ),
{
    let node = observation.node();
    observation_without_margin_is_three_triples(observation, subject, Seq::empty());
    let labels = choose|labels: Seq<Seq<char>>|
        minted(labels, fields_demand(node.fields, node.fields.len())) && #[trigger] batch_outcome(
            before,
            after,
            node_triples(node, subject, labels),
            res,
        );
    observation_without_margin_is_three_triples(observation, subject, labels);
    let batch = node_triples(node, subject, labels);
    assert(batch == plain_observation(observation, subject));
    if (forall|i: int| 0 <= i < 3 ==> (#[trigger] plain_observation(
        observation,
        subject,
    )[i]).well_formed()) && before.terms + 9 <= term_limit() {
        batch_is_written_where_there_is_room(before, after, batch, res);
    }
    if res is Ok {
        written_batch_is_added(before, after, batch, res);
        assert(batch.to_set() =~= Set::<TripleView>::empty().insert(batch[0]).insert(
            batch[1],
        ).insert(batch[2])) by {
            assert forall|t: TripleView| batch.to_set().contains(t) implies Set::<
                TripleView,
            >::empty().insert(batch[0]).insert(batch[1]).insert(batch[2]).contains(t) by {
                let k = choose|k: int| 0 <= k < batch.len() && batch[k] == t;
            }
            assert(batch.to_set().contains(batch[0]));
            assert(batch.to_set().contains(batch[1]));
            assert(batch.to_set().contains(batch[2]));
        }
        assert(after.triples =~= before.triples.insert(batch[0]).insert(batch[1]).insert(
            batch[2],
        ));
    }
}

/// A chemical without CAS number, SwissCAT number, keywords and density is
/// described by its required fields alone: none of the four predicates
/// is written.
pub proof fn chemical_without_optional_fields_is_its_required_fields(
    chemical: Chemical,
    subject: TermView,
    labels: Seq<Seq<char>>,
)
    requires
        chemical.cas_number is None,
        chemical.swiss_cat_number is None,
        chemical.keywords is None,
        chemical.density is None,
    ensures
        node_triples(chemical.node(), subject, labels) == node_triples(
            chemical.required(),
            subject,
            labels,
        ),
{
    let first = chemical.required();
    let second = first.with(cat_iri("casNumber"@), ValueView::Absent);
    let third = second.with(cat_iri("swissCatNumber"@), ValueView::Absent);
    let fourth = third.with(schema_iri("keywords"@), ValueView::Absent);
    absent_field_produces_no_triple(first, cat_iri("casNumber"@), subject, labels);
    absent_field_produces_no_triple(second, cat_iri("swissCatNumber"@), subject, labels);
    absent_field_produces_no_triple(third, schema_iri("keywords"@), subject, labels);
    absent_field_produces_no_triple(fourth, obo_iri("PATO_0001019"@), subject, labels);
}

/// The required fields of a chemical are seven triples under its term:
/// its class, identifier, name, formula and SMILES, the link to its
/// molecular mass, and its InChI. The molecular mass is described under a
/// blank node of its own, after the link.
pub proof fn chemical_required_fields_are_seven_triples_under_its_term(
    chemical: Chemical,
    subject: TermView,
    labels: Seq<Seq<char>>,
)
    ensures
        node_triples(chemical.required(), subject, labels) == seq![
            TripleView { subject, predicate: rdf_type_iri(), object: obo_iri("CHEBI_25367"@) },
            TripleView {
                subject,
                predicate: purl_iri("identifier"@),
                object: string_literal(chemical.chemical_id@),
            },
            TripleView {
                subject,
                predicate: allores_iri("AFR_0002292"@),
                object: string_literal(chemical.chemical_name@),
            },
            TripleView {
                subject,
                predicate: allores_iri("AFR_0001952"@),
                object: string_literal(chemical.molecular_formula@),
            },
            TripleView {
                subject,
                predicate: allores_iri("AFR_0002295"@),
                object: string_literal(chemical.smiles@),
            },
        ] + emit_value(
            subject,
            allores_iri("AFR_0002294"@),
            nested_value(chemical.molecular_mass),
            labels,
            0,
        ) + seq![
            TripleView {
                subject,
                predicate: allores_iri("AFR_0002296"@),
                object: string_literal(chemical.inchi@),
            },
        ],
        emit_value(
            subject,
            allores_iri("AFR_0002294"@),
            nested_value(chemical.molecular_mass),
            labels,
            0,
        )[0] == (TripleView {
            subject,
            predicate: allores_iri("AFR_0002294"@),
            object: TermView::BlankNode(labels[0]),
        }),
{
    let n0 = NodeView::keyed(chemical.inchi@);
    let v1 = ValueView::Scalar(obo_iri("CHEBI_25367"@));
    let n1 = n0.with(rdf_type_iri(), v1);
    let v2 = ValueView::Scalar(string_literal(chemical.chemical_id@));
    let n2 = n1.with(purl_iri("identifier"@), v2);
    let v3 = ValueView::Scalar(string_literal(chemical.chemical_name@));
    let n3 = n2.with(allores_iri("AFR_0002292"@), v3);
    let v4 = ValueView::Scalar(string_literal(chemical.molecular_formula@));
    let n4 = n3.with(allores_iri("AFR_0001952"@), v4);
    let v5 = ValueView::Scalar(string_literal(chemical.smiles@));
    let n5 = n4.with(allores_iri("AFR_0002295"@), v5);
    let v6 = nested_value(chemical.molecular_mass);
    let n6 = n5.with(allores_iri("AFR_0002294"@), v6);
    let v7 = ValueView::Scalar(string_literal(chemical.inchi@));
    field_contributes_its_own_triples(n0, rdf_type_iri(), v1, subject, labels);
    field_contributes_its_own_triples(n1, purl_iri("identifier"@), v2, subject, labels);
    field_contributes_its_own_triples(n2, allores_iri("AFR_0002292"@), v3, subject, labels);
    field_contributes_its_own_triples(n3, allores_iri("AFR_0001952"@), v4, subject, labels);
    field_contributes_its_own_triples(n4, allores_iri("AFR_0002295"@), v5, subject, labels);
    field_contributes_its_own_triples(n5, allores_iri("AFR_0002294"@), v6, subject, labels);
    field_contributes_its_own_triples(n6, allores_iri("AFR_0002296"@), v7, subject, labels);
    assert(node_triples(n0, subject, labels) =~= Seq::<TripleView>::empty());
    assert(fields_demand(n0.fields, n0.fields.len()) == 0);
    let mass = emit_value(subject, allores_iri("AFR_0002294"@), v6, labels, 0);
    assert(node_triples(n5, subject, labels) =~= seq![
        TripleView { subject, predicate: rdf_type_iri(), object: obo_iri("CHEBI_25367"@) },
        TripleView {
            subject,
            predicate: purl_iri("identifier"@),
            object: string_literal(chemical.chemical_id@),
        },
        TripleView {
            subject,
            predicate: allores_iri("AFR_0002292"@),
            object: string_literal(chemical.chemical_name@),
        },
        TripleView {
            subject,
            predicate: allores_iri("AFR_0001952"@),
            object: string_literal(chemical.molecular_formula@),
        },
        TripleView {
            subject,
            predicate: allores_iri("AFR_0002295"@),
            object: string_literal(chemical.smiles@),
        },
    ]);
    assert(fields_demand(n5.fields, n5.fields.len()) == 0);
    assert(node_triples(chemical.required(), subject, labels) =~= node_triples(
        n5,
        subject,
        labels,
    ) + mass + seq![
        TripleView {
            subject,
            predicate: allores_iri("AFR_0002296"@),
            object: string_literal(chemical.inchi@),
        },
    ]);
}

/// A chemical is typed under the IRI of its InChI, whatever labels a run
/// hands out: graphs built apart from each other hold the class triple
/// under the one IRI, which is the chemical's own term.
pub proof fn chemical_is_typed_under_the_iri_of_its_inchi(
    chemical: Chemical,
    first: Seq<Seq<char>>,
    second: Seq<Seq<char>>,
)
    ensures
        entity_triples(chemical.node(), first)[0] == (TripleView {
            subject: resource_iri(chemical.inchi@),
            predicate: rdf_type_iri(),
            object: obo_iri("CHEBI_25367"@),
        }),
        entity_triples(chemical.node(), first)[0] == entity_triples(chemical.node(), second)[0],
        root_term(chemical.node().identity, resource_iri(chemical.inchi@)),
{
    let node = chemical.node();
    assert(node.fields.len() == 11);
    assert(node.fields[0] == (FieldView {
        predicate: rdf_type_iri(),
        value: ValueView::Scalar(obo_iri("CHEBI_25367"@)),
    }));
    entity_is_described_first_by_its_first_field(node, first);
    entity_is_described_first_by_its_first_field(node, second);
}

/// A peak list is described by its class and then by its peaks, each
/// tied to the list and described in turn, in the order of the list. A list
/// without peaks is described by its class alone.
pub proof fn peak_list_is_its_class_and_its_peaks(
    list: PeakList,
    subject: TermView,
    labels: Seq<Seq<char>>,
)
    ensures
        node_triples(list.node(), subject, labels) == seq![
            TripleView { subject, predicate: rdf_type_iri(), object: cat_iri("PeakList"@) },
        ] + emit_value(subject, cat_iri("peak"@), repeated_value(list.peak@), labels, 0),
        list.peak@.len() == 0 ==> node_triples(list.node(), subject, labels) == seq![
            TripleView { subject, predicate: rdf_type_iri(), object: cat_iri("PeakList"@) },
        ],
{
    let start = NodeView::anonymous();
    let typed = start.with(rdf_type_iri(), ValueView::Scalar(cat_iri("PeakList"@)));
    field_contributes_its_own_triples(
        start,
        rdf_type_iri(),
        ValueView::Scalar(cat_iri("PeakList"@)),
        subject,
        labels,
    );
    field_contributes_its_own_triples(
        typed,
        cat_iri("peak"@),
        repeated_value(list.peak@),
        subject,
        labels,
    );
    assert(node_triples(start, subject, labels) =~= Seq::<TripleView>::empty());
    assert(fields_demand(start.fields, start.fields.len()) == 0);
    let class = seq![
        TripleView { subject, predicate: rdf_type_iri(), object: cat_iri("PeakList"@) },
    ];
    assert(node_triples(typed, subject, labels) =~= class);
    if list.peak@.len() == 0 {
        assert(emit_value(subject, cat_iri("peak"@), repeated_value(list.peak@), labels, 0)
            =~= Seq::<TripleView>::empty());
        assert(class + Seq::<TripleView>::empty() =~= class);
    }
}

} // verus!
