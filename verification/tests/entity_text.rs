use goldsrc_formats::entities::parse_entities;
use goldsrc_formats::entities::Entity;
use goldsrc_formats::entities::EntityValue;

fn props_of(e: &Entity) -> &Vec<(String, EntityValue)> {
    &e.props
}

#[test]
fn one_property_set_with_text_and_vector() {
    let text = "{\n\"classname\" \"info_player_start\"\n\"origin\" \"0 0 0\"\n}";
    let ents = parse_entities(text);
    assert_eq!(ents.len(), 1);
    let props = props_of(&ents[0]);
    assert_eq!(props.len(), 2);
    assert_eq!(props[0].0, "classname");
    assert_eq!(
        props[0].1,
        EntityValue::String("info_player_start".to_string())
    );
    assert_eq!(props[1].0, "origin");
    match &props[1].1 {
        EntityValue::Vec3(x, y, z) => {
            assert_eq!(x.parse::<f32>().unwrap(), 0.0);
            assert_eq!(y.parse::<f32>().unwrap(), 0.0);
            assert_eq!(z.parse::<f32>().unwrap(), 0.0);
        }
        other => panic!("origin classified as {:?}", other),
    }
}

#[test]
fn numeric_value_classifies_as_number() {
    let ents = parse_entities("{\n\"speed\" \"32\"\n}");
    let props = props_of(&ents[0]);
    match &props[0].1 {
        EntityValue::Number(s) => {
            assert_eq!(s, "32");
            assert_eq!(s.parse::<f32>().unwrap(), 32.0);
        }
        other => panic!("speed classified as {:?}", other),
    }
}

#[test]
fn partial_vector_stays_text() {
    let ents = parse_entities("{\n\"angles\" \"1 2 abc\"\n}");
    let props = props_of(&ents[0]);
    assert_eq!(props[0].1, EntityValue::String("1 2 abc".to_string()));
}

#[test]
fn float_grammar_edge_forms() {
    let text = "{\n\"a\" \"1e5\"\n\"b\" \".5\"\n\"c\" \"2.\"\n\"d\" \"-inf\"\n\"e\" \"NaN\"\n\"f\" \".\"\n\"g\" \"1e\"\n\"h\" \"infinity\"\n}";
    let ents = parse_entities(text);
    let props = props_of(&ents[0]);
    let kinds: Vec<(String, bool)> = props
        .iter()
        .map(|(k, v)| (k.clone(), matches!(v, EntityValue::Number(_))))
        .collect();
    assert_eq!(
        kinds,
        vec![
            ("a".to_string(), true),
            ("b".to_string(), true),
            ("c".to_string(), true),
            ("d".to_string(), true),
            ("e".to_string(), true),
            ("f".to_string(), false),
            ("g".to_string(), false),
            ("h".to_string(), true),
        ]
    );
    // the classifier accepts exactly what the standard float parser does
    for (_, value) in props.iter() {
        match value {
            EntityValue::Number(s) => assert!(s.parse::<f32>().is_ok()),
            EntityValue::String(s) => assert!(s.parse::<f32>().is_err()),
            EntityValue::Vec3(..) => panic!("no vectors in this set"),
        }
    }
}

#[test]
fn three_float_tokens_classify_as_vector() {
    let ents = parse_entities("{\n\"dir\" \"1.5 -2 3e1\"\n}");
    let props = props_of(&ents[0]);
    match &props[0].1 {
        EntityValue::Vec3(x, y, z) => {
            assert_eq!(x, "1.5");
            assert_eq!(y, "-2");
            assert_eq!(z, "3e1");
        }
        other => panic!("dir classified as {:?}", other),
    }
}

#[test]
fn later_duplicate_key_overwrites_in_place() {
    let ents = parse_entities("{\n\"k\" \"one\"\n\"m\" \"mid\"\n\"k\" \"two\"\n}");
    let props = props_of(&ents[0]);
    assert_eq!(props.len(), 2);
    assert_eq!(props[0].0, "k");
    assert_eq!(props[0].1, EntityValue::String("two".to_string()));
    assert_eq!(props[1].0, "m");
}

#[test]
fn lines_outside_open_set_are_discarded() {
    let ents = parse_entities("\"stray\" \"line\"\n{\n\"a\" \"b\"\n}\n\"after\" \"close\"");
    assert_eq!(ents.len(), 1);
    let props = props_of(&ents[0]);
    assert_eq!(props.len(), 1);
    assert_eq!(props[0].0, "a");
}

#[test]
fn malformed_lines_are_skipped() {
    let ents = parse_entities("{\nno quotes here\n\"only one segment\n\"k\" \"v\"\n}");
    let props = props_of(&ents[0]);
    // the two lines without both quoted segments contribute nothing
    assert_eq!(props.len(), 1);
    assert_eq!(props[0].0, "k");
    assert_eq!(props[0].1, EntityValue::String("v".to_string()));
}

#[test]
fn carriage_returns_are_stripped_from_terminated_lines() {
    let ents = parse_entities("{\r\n\"a\" \"b\"\r\n}\r\n");
    assert_eq!(ents.len(), 1);
    assert_eq!(props_of(&ents[0]).len(), 1);
}

#[test]
fn empty_text_yields_no_entities() {
    assert_eq!(parse_entities("").len(), 0);
}

#[test]
fn parsing_twice_yields_identical_results() {
    let text = "{\n\"classname\" \"light\"\n\"brightness\" \"200\"\n}\n{\n\"origin\" \"1 2 3\"\n}";
    let a = parse_entities(text);
    let b = parse_entities(text);
    assert_eq!(a, b);
    assert_eq!(a.len(), 2);
}
