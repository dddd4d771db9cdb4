use catplus::models::base::Chemical;
use catplus::models::base::Plate;
use catplus::models::synth::SampleItem;
use catplus::models::synth::SynthAction;
use catplus::models::synth::SynthBatch;
use catplus::models::synth::SynthSample;
use catplus::models::synth::SynthWell;
use catplus::convert::entity_to_rdf;
use catplus::convert::ConverterConfig;
use catplus::convert::RdfFormat;
use catplus::insert_into::InsertIntoGraph;
use catplus::models::base::ErrorMargin;
use catplus::models::base::Observation;
use catplus::models::enums::ActionName;
use catplus::models::enums::Unit;
use sophia::api::source::TripleSource;
use sophia::inmem::graph::LightGraph;
use sophia_isomorphism::isomorphic_graphs;

fn parse_turtle_to_graph(turtle: &str) -> Result<LightGraph, String> {
    sophia::turtle::parser::turtle::parse_str(turtle)
        .collect_triples()
        .map_err(|e| format!("{}", e))
}

fn get_test_config(input_path: &str) -> ConverterConfig {
    ConverterConfig {
        input_path: format!("/{}", input_path),
        format: RdfFormat::Turtle,
        prefix: None,
        materialize: false,
    }
}

fn to_rdf<T: InsertIntoGraph>(entity: &T, config: &ConverterConfig) -> Result<String, String> {
    entity_to_rdf(entity, config, true)
        .map(|done| done.text)
        .map_err(|e| e.message().to_string())
}

fn observation(value: f64, unit: Unit, margin: Option<f64>) -> Observation {
    Observation {
        value: format!("{}", value),
        unit,
        error_margin: margin.map(|m| ErrorMargin { value: format!("{}", m), unit }),
    }
}

fn action(name: ActionName, start: &str, end: &str, method: &str, sub: &str) -> SynthAction {
    SynthAction {
        action_name: name,
        start_time: start.to_string(),
        ending_time: end.to_string(),
        method_name: method.to_string(),
        equipment_name: "Chemspeed SWING XL".to_string(),
        sub_equipment_name: sub.to_string(),
        has_plate: Some(Plate {
            container_id: "1".to_string(),
            container_barcode: Some("1".to_string()),
        }),
        speed_shaker: None,
        speed_tumble_stirrer: None,
        temperature_tumble_stirrer: None,
        temperature_shaker: None,
        pressure_measurement: None,
        vacuum: None,
        has_well: None,
        dispense_state: None,
        dispense_type: None,
        has_sample: None,
    }
}

fn batch(action: SynthAction) -> SynthBatch {
    SynthBatch { batch_id: "23".to_string(), actions: vec![action] }
}

fn synth_filtrate_action() -> SynthBatch {
    batch(action(
        ActionName::FiltrateAction,
        "2024-07-25T12:15:23",
        "2024-07-25T12:16:50",
        "filtrate",
        "Filtration unit",
    ))
}

fn synth_set_pressure_action() -> SynthBatch {
    let mut pressure = action(
        ActionName::SetPressureAction,
        "2024-07-25T12:03:50",
        "2024-07-25T12:04:05",
        "set_pressure",
        "MTP_Pressure",
    );
    pressure.pressure_measurement = Some(observation(5.0, Unit::Bar, Some(1.0)));
    batch(pressure)
}

fn synth_set_temperature_action() -> SynthBatch {
    let mut temperature = action(
        ActionName::SetTemperatureAction,
        "2024-07-25T12:00:00",
        "2024-07-25T12:00:02",
        "set_temperature",
        "heater",
    );
    temperature.temperature_shaker = Some(observation(25.0, Unit::DegC, Some(1.0)));
    temperature.temperature_tumble_stirrer = Some(observation(25.0, Unit::DegC, Some(2.0)));
    temperature.speed_tumble_stirrer = Some(observation(152.0, Unit::RevPerMin, Some(5.0)));
    batch(temperature)
}

fn synth_shake_action() -> SynthBatch {
    let mut shake = action(
        ActionName::ShakeAction,
        "2024-07-25T12:03:31",
        "2024-07-25T12:15:20",
        "shake",
        "Tumble Stirrer",
    );
    shake.temperature_shaker = Some(observation(25.0, Unit::DegC, Some(2.0)));
    shake.temperature_tumble_stirrer = Some(observation(25.0, Unit::DegC, Some(1.0)));
    shake.speed_tumble_stirrer = Some(observation(600.0, Unit::RevPerMin, Some(1.0)));
    batch(shake)
}

fn synth_set_vacuum_action() -> SynthBatch {
    let mut vacuum = action(
        ActionName::SetVacuumAction,
        "2024-07-25T12:03:41",
        "2024-07-25T12:03:50",
        "set_vacuum",
        "vacuum",
    );
    vacuum.vacuum = Some(observation(20.0, Unit::Bar, Some(0.5)));
    batch(vacuum)
}

fn well(position: &str, quantity: f64, margin: f64) -> SynthWell {
    SynthWell {
        has_plate: Plate { container_id: "1".to_string(), container_barcode: None },
        position: position.to_string(),
        quantity: observation(quantity, Unit::MilliGm, Some(margin)),
    }
}

fn synth_add_action() -> SynthBatch {
    let mut add = action(
        ActionName::AddAction,
        "2024-07-25T12:01:29",
        "2024-07-25T12:01:35",
        "addition",
        "GDU-V",
    );
    add.has_plate = None;
    add.dispense_state = Some("Liquid".to_string());
    add.dispense_type = Some("volume".to_string());
    add.has_well = Some(vec![well("B1", 0.034, 0.002), well("A1", 0.024, 0.001)]);
    add.has_sample = Some(SynthSample {
        has_plate: Plate {
            container_id: "18".to_string(),
            container_barcode: Some("18".to_string()),
        },
        vial_id: "17".to_string(),
        vial_type: "storage vial".to_string(),
        role: "reagent".to_string(),
        expected_datum: observation(2.0, Unit::MilliGm, None),
        has_sample: vec![SampleItem {
            sample_id: "124".to_string(),
            role: "reagent".to_string(),
            internal_bar_code: "2".to_string(),
            expected_datum: Some(observation(5.0, Unit::MilliGm, None)),
            measured_quantity: Some(observation(1.0, Unit::MilliGm, Some(0.001))),
            concentration: None,
            physical_state: "Liquid".to_string(),
            has_chemical: Chemical {
                chemical_id: "134".to_string(),
                chemical_name: "4-methoxybenzaldehyde".to_string(),
                cas_number: Some("123-11-5".to_string()),
                molecular_mass: observation(136.15, Unit::GmPerMol, None),
                smiles: "COC1=CC=C(C=C1)C=O".to_string(),
                swiss_cat_number: None,
                inchi: "1S/C8H8O2/c1-10-8-4-2-7(6-9)3-5-8/h2-6H,1H3".to_string(),
                keywords: None,
                molecular_formula: "C8H8O2".to_string(),
                density: Some(observation(1.119, Unit::GmPerMilliL, None)),
            },
        }],
    });
    batch(add)
}

#[test]
fn test_convert_filtrate_action() {
    let config = get_test_config("data/tests/synth_filtrate_action.json");
    let result = to_rdf(&synth_filtrate_action(), &config);
    let expected_ttl = r#"
        PREFIX rdf: <http://www.w3.org/1999/02/22-rdf-syntax-ns#>
        PREFIX xsd: <http://www.w3.org/2001/XMLSchema#>
        PREFIX cat: <http://example.org/catplus/ontology/>
        PREFIX schema: <https://schema.org/>
        PREFIX unit: <http://qudt.org/vocab/unit/>
        PREFIX allores: <http://purl.allotrope.org/ontologies/result#>
        PREFIX allorole: <http://purl.allotrope.org/ontologies/role#>
        PREFIX alloproc: <http://purl.allotrope.org/ontologies/process#>
        PREFIX alloprop: <http://purl.allotrope.org/ontologies/property#>
        PREFIX allocom: <http://purl.allotrope.org/ontologies/common#>
        PREFIX allohdf: <http://purl.allotrope.org/ontologies/hdf5/1.8#>
        PREFIX allohdfcube: <http://purl.allotrope.org/ontologies/datacube-hdf-map#>
        PREFIX qb: <http://purl.org/linked-data/cube#>
        PREFIX qudt: <http://qudt.org/schema/qudt/>
        PREFIX qudtext: <http://purl.allotrope.org/ontology/qudt-ext/unit#>
        PREFIX alloqual: <http://purl.allotrope.org/ontologies/quality#>
        PREFIX allodc: <http://purl.allotrope.org/ontologies/datacube#>
        PREFIX purl: <http://purl.allotrope.org/ontologies/>
        PREFIX obo: <http://purl.obolibrary.org/obo/>

        <http://example.org/cat/resource/U1-jDX4l3YpJ8VNneXNOyChhCNEV2lBF1387QYXY95A> a cat:Batch;
          purl:identifier "23".

        [] a cat:FiltrateAction;
          cat:hasBatch <http://example.org/cat/resource/U1-jDX4l3YpJ8VNneXNOyChhCNEV2lBF1387QYXY95A>;
          cat:hasPlate [ a cat:Plate;
              cat:containerBarcode "1";
              cat:containerID "1"];
          cat:subEquipmentName "Filtration unit";
          allores:AFR_0001606 "filtrate";
          allores:AFR_0001723 "Chemspeed SWING XL";
          allores:AFR_0002423 "2024-07-25T12:16:50"^^xsd:dateTime;
          allores:AFX_0000622 "2024-07-25T12:15:23"^^xsd:dateTime.
    "#;
    let expected_graph = parse_turtle_to_graph(&expected_ttl).unwrap();
    let result_ttl = result.as_ref().unwrap().as_str();
    let result_graph = parse_turtle_to_graph(&result_ttl).unwrap();
    let graphs_match = isomorphic_graphs(&result_graph, &expected_graph);
    assert_eq!(graphs_match.unwrap(), true);
}

#[test]
fn test_convert_pressure_action() {
    let config = get_test_config("data/tests/synth_set_pressure_action.json");
    let result = to_rdf(&synth_set_pressure_action(), &config);
    let expected_ttl = r#"
        PREFIX rdf: <http://www.w3.org/1999/02/22-rdf-syntax-ns#>
        PREFIX xsd: <http://www.w3.org/2001/XMLSchema#>
        PREFIX cat: <http://example.org/catplus/ontology/>
        PREFIX schema: <https://schema.org/>
        PREFIX unit: <http://qudt.org/vocab/unit/>
        PREFIX allores: <http://purl.allotrope.org/ontologies/result#>
        PREFIX allorole: <http://purl.allotrope.org/ontologies/role#>
        PREFIX alloproc: <http://purl.allotrope.org/ontologies/process#>
        PREFIX alloprop: <http://purl.allotrope.org/ontologies/property#>
        PREFIX allocom: <http://purl.allotrope.org/ontologies/common#>
        PREFIX allohdf: <http://purl.allotrope.org/ontologies/hdf5/1.8#>
        PREFIX allohdfcube: <http://purl.allotrope.org/ontologies/datacube-hdf-map#>
        PREFIX qb: <http://purl.org/linked-data/cube#>
        PREFIX qudt: <http://qudt.org/schema/qudt/>
        PREFIX qudtext: <http://purl.allotrope.org/ontology/qudt-ext/unit#>
        PREFIX alloqual: <http://purl.allotrope.org/ontologies/quality#>
        PREFIX allodc: <http://purl.allotrope.org/ontologies/datacube#>
        PREFIX purl: <http://purl.allotrope.org/ontologies/>
        PREFIX obo: <http://purl.obolibrary.org/obo/>

        <http://example.org/cat/resource/U1-jDX4l3YpJ8VNneXNOyChhCNEV2lBF1387QYXY95A> a cat:Batch;
          purl:identifier "23".

        [] a cat:SetPressureAction;
          cat:hasBatch <http://example.org/cat/resource/U1-jDX4l3YpJ8VNneXNOyChhCNEV2lBF1387QYXY95A>;
          cat:hasPlate [ a cat:Plate;
              cat:containerBarcode "1";
              cat:containerID "1"];
          cat:subEquipmentName "MTP_Pressure";
          alloproc:AFP_0002677 [ a cat:Observation;
              cat:errorMargin [ a cat:errorMargin;
                  qudt:unit unit:Bar;
                  qudt:value "1"^^xsd:double];
              qudt:unit unit:Bar;
              qudt:value "5"^^xsd:double];
          allores:AFR_0001606 "set_pressure";
          allores:AFR_0001723 "Chemspeed SWING XL";
          allores:AFR_0002423 "2024-07-25T12:04:05"^^xsd:dateTime;
          allores:AFX_0000622 "2024-07-25T12:03:50"^^xsd:dateTime.
    "#;
    let expected_graph = parse_turtle_to_graph(&expected_ttl).unwrap();
    let result_ttl = result.as_ref().unwrap().as_str();
    let result_graph = parse_turtle_to_graph(&result_ttl).unwrap();
    let graphs_match = isomorphic_graphs(&result_graph, &expected_graph);
    assert_eq!(graphs_match.unwrap(), true);
}

#[test]
fn test_convert_set_temperature_action() {
    let config = get_test_config("data/tests/synth_set_temperature_action.json");
    let result = to_rdf(&synth_set_temperature_action(), &config);
    let expected_ttl = r#"
        PREFIX rdf: <http://www.w3.org/1999/02/22-rdf-syntax-ns#>
        PREFIX xsd: <http://www.w3.org/2001/XMLSchema#>
        PREFIX cat: <http://example.org/catplus/ontology/>
        PREFIX schema: <https://schema.org/>
        PREFIX unit: <http://qudt.org/vocab/unit/>
        PREFIX allores: <http://purl.allotrope.org/ontologies/result#>
        PREFIX allorole: <http://purl.allotrope.org/ontologies/role#>
        PREFIX alloproc: <http://purl.allotrope.org/ontologies/process#>
        PREFIX alloprop: <http://purl.allotrope.org/ontologies/property#>
        PREFIX allocom: <http://purl.allotrope.org/ontologies/common#>
        PREFIX allohdf: <http://purl.allotrope.org/ontologies/hdf5/1.8#>
        PREFIX allohdfcube: <http://purl.allotrope.org/ontologies/datacube-hdf-map#>
        PREFIX qb: <http://purl.org/linked-data/cube#>
        PREFIX qudt: <http://qudt.org/schema/qudt/>
        PREFIX qudtext: <http://purl.allotrope.org/ontology/qudt-ext/unit#>
        PREFIX alloqual: <http://purl.allotrope.org/ontologies/quality#>
        PREFIX allodc: <http://purl.allotrope.org/ontologies/datacube#>
        PREFIX purl: <http://purl.allotrope.org/ontologies/>
        PREFIX obo: <http://purl.obolibrary.org/obo/>

        <http://example.org/cat/resource/U1-jDX4l3YpJ8VNneXNOyChhCNEV2lBF1387QYXY95A> a cat:Batch;
        purl:identifier "23".

        [] a cat:SetTemperatureAction;
        cat:hasBatch <http://example.org/cat/resource/U1-jDX4l3YpJ8VNneXNOyChhCNEV2lBF1387QYXY95A>;
        cat:hasPlate [ a cat:Plate;
            cat:containerBarcode "1";
            cat:containerID "1"];
        cat:subEquipmentName "heater";
        cat:temperatureShaker [ a cat:Observation;
            cat:errorMargin [ a cat:errorMargin;
                qudt:unit unit:DEG_C;
                qudt:value "1"^^xsd:double];
            qudt:unit unit:DEG_C;
            qudt:value "25"^^xsd:double];
        cat:temperatureTumbleStirrer [ a cat:Observation;
            cat:errorMargin [ a cat:errorMargin;
                qudt:unit unit:DEG_C;
                qudt:value "2"^^xsd:double];
            qudt:unit unit:DEG_C;
            qudt:value "25"^^xsd:double];
        alloprop:AFX_0000211 [ a cat:Observation;
            cat:errorMargin [ a cat:errorMargin;
                qudt:unit unit:REV-PER-MIN;
                qudt:value "5"^^xsd:double];
            qudt:unit unit:REV-PER-MIN;
            qudt:value "152"^^xsd:double];
        allores:AFR_0001606 "set_temperature";
        allores:AFR_0001723 "Chemspeed SWING XL";
        allores:AFR_0002423 "2024-07-25T12:00:02"^^xsd:dateTime;
        allores:AFX_0000622 "2024-07-25T12:00:00"^^xsd:dateTime.
        "#;
    let expected_graph = parse_turtle_to_graph(&expected_ttl).unwrap();
    let result_ttl = result.as_ref().unwrap().as_str();
    let result_graph = parse_turtle_to_graph(&result_ttl).unwrap();
    let graphs_match = isomorphic_graphs(&result_graph, &expected_graph);
    assert_eq!(graphs_match.unwrap(), true);
}

#[test]
fn test_convert_add_action() {
    let config = get_test_config("data/tests/synth_add_action.json");
    let result = to_rdf(&synth_add_action(), &config);
    let expected_ttl = r#"
        PREFIX rdf: <http://www.w3.org/1999/02/22-rdf-syntax-ns#>
        PREFIX xsd: <http://www.w3.org/2001/XMLSchema#>
        PREFIX cat: <http://example.org/catplus/ontology/>
        PREFIX schema: <https://schema.org/>
        PREFIX unit: <http://qudt.org/vocab/unit/>
        PREFIX allores: <http://purl.allotrope.org/ontologies/result#>
        PREFIX allorole: <http://purl.allotrope.org/ontologies/role#>
        PREFIX alloproc: <http://purl.allotrope.org/ontologies/process#>
        PREFIX alloprop: <http://purl.allotrope.org/ontologies/property#>
        PREFIX allocom: <http://purl.allotrope.org/ontologies/common#>
        PREFIX allohdf: <http://purl.allotrope.org/ontologies/hdf5/1.8#>
        PREFIX allohdfcube: <http://purl.allotrope.org/ontologies/datacube-hdf-map#>
        PREFIX qb: <http://purl.org/linked-data/cube#>
        PREFIX qudt: <http://qudt.org/schema/qudt/>
        PREFIX qudtext: <http://purl.allotrope.org/ontology/qudt-ext/unit#>
        PREFIX alloqual: <http://purl.allotrope.org/ontologies/quality#>
        PREFIX allodc: <http://purl.allotrope.org/ontologies/datacube#>
        PREFIX purl: <http://purl.allotrope.org/ontologies/>
        PREFIX obo: <http://purl.obolibrary.org/obo/>

        <http://example.org/cat/resource/U1-jDX4l3YpJ8VNneXNOyChhCNEV2lBF1387QYXY95A> a cat:Batch;
        purl:identifier "23".

        <http://example.org/cat/resource/cK09bQkyv-c1OdUpG17RCAzSw1k_Z5EP9db8jh2WTvg> a obo:CHEBI_25367;
        cat:casNumber "123-11-5";
        purl:identifier "134";
        allores:AFR_0001952 "C8H8O2";
        allores:AFR_0002292 "4-methoxybenzaldehyde";
        allores:AFR_0002294 [ a cat:Observation;
            qudt:unit unit:GM-PER-MOL;
            qudt:value "136.15"^^xsd:double],
            [ a cat:Observation;
            qudt:unit unit:GM-PER-MOL;
            qudt:value "136.15"^^xsd:double];
        allores:AFR_0002295 "COC1=CC=C(C=C1)C=O";
        allores:AFR_0002296 "1S/C8H8O2/c1-10-8-4-2-7(6-9)3-5-8/h2-6H,1H3";
        obo:PATO_0001019 [ a cat:Observation;
            qudt:unit unit:GM-PER-MilliL;
            qudt:value "1.119"^^xsd:double],
            [ a cat:Observation;
            qudt:unit unit:GM-PER-MilliL;
            qudt:value "1.119"^^xsd:double].

        <http://example.org/cat/resource/rIm5C_G7z1IMzoHcbRYk4DGARaf09abUq6oKKwym2oU> a cat:Product;
        purl:identifier "1-B1".

        <http://example.org/cat/resource/tFZK0UBWAzCoe3VPYQ1NgSFz1q-ziFOVQmJE_XWRckw> a cat:Product;
        purl:identifier "1-A1".

        [] a cat:SynthAddAction;
        cat:dispenseType "volume";
        cat:hasBatch <http://example.org/cat/resource/U1-jDX4l3YpJ8VNneXNOyChhCNEV2lBF1387QYXY95A>;
        cat:hasSample [ a cat:Sample;
            cat:expectedDatum [ a cat:Observation;
                qudt:unit unit:MilliGM;
                qudt:value "2"^^xsd:double];
            cat:hasPlate [ a cat:Plate;
                cat:containerBarcode "18";
                cat:containerID "18"];
            cat:hasSample [ a cat:Sample;
                cat:expectedDatum [ a cat:Observation;
                    qudt:unit unit:MilliGM;
                    qudt:value "5"^^xsd:double];
                cat:hasChemical <http://example.org/cat/resource/cK09bQkyv-c1OdUpG17RCAzSw1k_Z5EP9db8jh2WTvg>;
                cat:internalBarCode "2";
                cat:measuredQuantity [ a cat:Observation;
                    cat:errorMargin [ a cat:errorMargin;
                        qudt:unit unit:MilliGM;
                        qudt:value "0.001"^^xsd:double];
                    qudt:unit unit:MilliGM;
                    qudt:value "1"^^xsd:double];
                cat:role "reagent";
                purl:identifier "124";
                alloqual:AFQ_0000111 "Liquid"];
            cat:role "reagent";
            cat:vialType "storage vial";
            allores:AFR_0002464 "17"];
        cat:hasWell [ a cat:Well;
            cat:hasPlate [ a cat:Plate;
                cat:containerID "1"];
            allores:AFR_0002240 "B1"];
        cat:producesProduct <http://example.org/cat/resource/rIm5C_G7z1IMzoHcbRYk4DGARaf09abUq6oKKwym2oU>;
        cat:subEquipmentName "GDU-V";
        alloqual:AFQ_0000111 "Liquid";
        allores:AFR_0001606 "addition";
        allores:AFR_0001723 "Chemspeed SWING XL";
        allores:AFR_0002423 "2024-07-25T12:01:35"^^xsd:dateTime;
        allores:AFX_0000622 "2024-07-25T12:01:29"^^xsd:dateTime;
        qudt:quantity [ a cat:Observation;
            cat:errorMargin [ a cat:errorMargin;
                qudt:unit unit:MilliGM;
                qudt:value "0.002"^^xsd:double];
            qudt:unit unit:MilliGM;
            qudt:value "0.034"^^xsd:double].

        [] a cat:SynthAddAction;
        cat:dispenseType "volume";
        cat:hasBatch <http://example.org/cat/resource/U1-jDX4l3YpJ8VNneXNOyChhCNEV2lBF1387QYXY95A>;
        cat:hasSample [ a cat:Sample;
            cat:expectedDatum [ a cat:Observation;
                qudt:unit unit:MilliGM;
                qudt:value "2"^^xsd:double];
            cat:hasPlate [ a cat:Plate;
                cat:containerBarcode "18";
                cat:containerID "18"];
            cat:hasSample [ a cat:Sample;
                cat:expectedDatum [ a cat:Observation;
                    qudt:unit unit:MilliGM;
                    qudt:value "5"^^xsd:double];
                cat:hasChemical <http://example.org/cat/resource/cK09bQkyv-c1OdUpG17RCAzSw1k_Z5EP9db8jh2WTvg>;
                cat:internalBarCode "2";
                cat:measuredQuantity [ a cat:Observation;
                    cat:errorMargin [ a cat:errorMargin;
                        qudt:unit unit:MilliGM;
                        qudt:value "0.001"^^xsd:double];
                    qudt:unit unit:MilliGM;
                    qudt:value "1"^^xsd:double];
                cat:role "reagent";
                purl:identifier "124";
                alloqual:AFQ_0000111 "Liquid"];
            cat:role "reagent";
            cat:vialType "storage vial";
            allores:AFR_0002464 "17"];
        cat:hasWell [ a cat:Well;
            cat:hasPlate [ a cat:Plate;
                cat:containerID "1"];
            allores:AFR_0002240 "A1"];
        cat:producesProduct <http://example.org/cat/resource/tFZK0UBWAzCoe3VPYQ1NgSFz1q-ziFOVQmJE_XWRckw>;
        cat:subEquipmentName "GDU-V";
        alloqual:AFQ_0000111 "Liquid";
        allores:AFR_0001606 "addition";
        allores:AFR_0001723 "Chemspeed SWING XL";
        allores:AFR_0002423 "2024-07-25T12:01:35"^^xsd:dateTime;
        allores:AFX_0000622 "2024-07-25T12:01:29"^^xsd:dateTime;
        qudt:quantity [ a cat:Observation;
            cat:errorMargin [ a cat:errorMargin;
                qudt:unit unit:MilliGM;
                qudt:value "0.001"^^xsd:double];
            qudt:unit unit:MilliGM;
            qudt:value "0.024"^^xsd:double].
    "#;
    let expected_graph = parse_turtle_to_graph(&expected_ttl).unwrap();
    let result_ttl = result.as_ref().unwrap().as_str();
    let result_graph = parse_turtle_to_graph(&result_ttl).unwrap();
    let graphs_match = isomorphic_graphs(&result_graph, &expected_graph);
    assert_eq!(graphs_match.unwrap(), true);
}

#[test]
fn test_convert_shake_action() {
    let config = get_test_config("data/tests/synth_shake_action.json");
    let result = to_rdf(&synth_shake_action(), &config);
    let expected_ttl = r#"
        PREFIX rdf: <http://www.w3.org/1999/02/22-rdf-syntax-ns#>
        PREFIX xsd: <http://www.w3.org/2001/XMLSchema#>
        PREFIX cat: <http://example.org/catplus/ontology/>
        PREFIX schema: <https://schema.org/>
        PREFIX unit: <http://qudt.org/vocab/unit/>
        PREFIX allores: <http://purl.allotrope.org/ontologies/result#>
        PREFIX allorole: <http://purl.allotrope.org/ontologies/role#>
        PREFIX alloproc: <http://purl.allotrope.org/ontologies/process#>
        PREFIX alloprop: <http://purl.allotrope.org/ontologies/property#>
        PREFIX allocom: <http://purl.allotrope.org/ontologies/common#>
        PREFIX allohdf: <http://purl.allotrope.org/ontologies/hdf5/1.8#>
        PREFIX allohdfcube: <http://purl.allotrope.org/ontologies/datacube-hdf-map#>
        PREFIX qb: <http://purl.org/linked-data/cube#>
        PREFIX qudt: <http://qudt.org/schema/qudt/>
        PREFIX qudtext: <http://purl.allotrope.org/ontology/qudt-ext/unit#>
        PREFIX alloqual: <http://purl.allotrope.org/ontologies/quality#>
        PREFIX allodc: <http://purl.allotrope.org/ontologies/datacube#>
        PREFIX purl: <http://purl.allotrope.org/ontologies/>
        PREFIX obo: <http://purl.obolibrary.org/obo/>

        <http://example.org/cat/resource/U1-jDX4l3YpJ8VNneXNOyChhCNEV2lBF1387QYXY95A> a cat:Batch;
          purl:identifier "23".

        [] a cat:ShakeAction;
          cat:hasBatch <http://example.org/cat/resource/U1-jDX4l3YpJ8VNneXNOyChhCNEV2lBF1387QYXY95A>;
          cat:hasPlate [ a cat:Plate;
              cat:containerBarcode "1";
              cat:containerID "1"];
          cat:subEquipmentName "Tumble Stirrer";
          cat:temperatureShaker [ a cat:Observation;
              cat:errorMargin [ a cat:errorMargin;
                  qudt:unit unit:DEG_C;
                  qudt:value "2"^^xsd:double];
              qudt:unit unit:DEG_C;
              qudt:value "25"^^xsd:double];
          cat:temperatureTumbleStirrer [ a cat:Observation;
              cat:errorMargin [ a cat:errorMargin;
                  qudt:unit unit:DEG_C;
                  qudt:value "1"^^xsd:double];
              qudt:unit unit:DEG_C;
              qudt:value "25"^^xsd:double];
          alloprop:AFX_0000211 [ a cat:Observation;
              cat:errorMargin [ a cat:errorMargin;
                  qudt:unit unit:REV-PER-MIN;
                  qudt:value "1"^^xsd:double];
              qudt:unit unit:REV-PER-MIN;
              qudt:value "600"^^xsd:double];
          allores:AFR_0001606 "shake";
          allores:AFR_0001723 "Chemspeed SWING XL";
          allores:AFR_0002423 "2024-07-25T12:15:20"^^xsd:dateTime;
          allores:AFX_0000622 "2024-07-25T12:03:31"^^xsd:dateTime.
    "#;
    let expected_graph = parse_turtle_to_graph(&expected_ttl).unwrap();
    let result_ttl = result.as_ref().unwrap().as_str();
    let result_graph = parse_turtle_to_graph(&result_ttl).unwrap();
    let graphs_match = isomorphic_graphs(&result_graph, &expected_graph);
    assert_eq!(graphs_match.unwrap(), true);
}

#[test]
fn test_convert_set_vacuum_action() {
    let config = get_test_config("data/tests/synth_set_vacuum_action.json");
    let result = to_rdf(&synth_set_vacuum_action(), &config);
    let expected_ttl = r#"
        PREFIX rdf: <http://www.w3.org/1999/02/22-rdf-syntax-ns#>
        PREFIX xsd: <http://www.w3.org/2001/XMLSchema#>
        PREFIX cat: <http://example.org/catplus/ontology/>
        PREFIX schema: <https://schema.org/>
        PREFIX unit: <http://qudt.org/vocab/unit/>
        PREFIX allores: <http://purl.allotrope.org/ontologies/result#>
        PREFIX allorole: <http://purl.allotrope.org/ontologies/role#>
        PREFIX alloproc: <http://purl.allotrope.org/ontologies/process#>
        PREFIX alloprop: <http://purl.allotrope.org/ontologies/property#>
        PREFIX allocom: <http://purl.allotrope.org/ontologies/common#>
        PREFIX allohdf: <http://purl.allotrope.org/ontologies/hdf5/1.8#>
        PREFIX allohdfcube: <http://purl.allotrope.org/ontologies/datacube-hdf-map#>
        PREFIX qb: <http://purl.org/linked-data/cube#>
        PREFIX qudt: <http://qudt.org/schema/qudt/>
        PREFIX qudtext: <http://purl.allotrope.org/ontology/qudt-ext/unit#>
        PREFIX alloqual: <http://purl.allotrope.org/ontologies/quality#>
        PREFIX allodc: <http://purl.allotrope.org/ontologies/datacube#>
        PREFIX purl: <http://purl.allotrope.org/ontologies/>
        PREFIX obo: <http://purl.obolibrary.org/obo/>

        <http://example.org/cat/resource/U1-jDX4l3YpJ8VNneXNOyChhCNEV2lBF1387QYXY95A> a cat:Batch;
          purl:identifier "23".

        [] a cat:SetVacuumAction;
          cat:hasBatch <http://example.org/cat/resource/U1-jDX4l3YpJ8VNneXNOyChhCNEV2lBF1387QYXY95A>;
          cat:hasPlate [ a cat:Plate;
              cat:containerBarcode "1";
              cat:containerID "1"];
          cat:subEquipmentName "vacuum";
          cat:vacuum [ a cat:Observation;
              cat:errorMargin [ a cat:errorMargin;
                  qudt:unit unit:Bar;
                  qudt:value "0.5"^^xsd:double];
              qudt:unit unit:Bar;
              qudt:value "20"^^xsd:double];
          allores:AFR_0001606 "set_vacuum";
          allores:AFR_0001723 "Chemspeed SWING XL";
          allores:AFR_0002423 "2024-07-25T12:03:50"^^xsd:dateTime;
          allores:AFX_0000622 "2024-07-25T12:03:41"^^xsd:dateTime.
    "#;
    let expected_graph = parse_turtle_to_graph(&expected_ttl).unwrap();
    let result_ttl = result.as_ref().unwrap().as_str();
    let result_graph = parse_turtle_to_graph(&result_ttl).unwrap();
    let graphs_match = isomorphic_graphs(&result_graph, &expected_graph);
    assert_eq!(graphs_match.unwrap(), true);
}
