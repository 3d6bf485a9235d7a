use orphanage::cli::args;
use orphanage::translation::name_map::NameMap;
use orphanage::translation::query_definition::{
    DataType, Mapping, QueryDefinitions, QueryType, Range, RangeBound, RangeType,
};
use orphanage::translation::translation::{
    Mapping as TranslationMapping, QueryType as TranslationQueryType,
    RangeBound as TranslationRangeBound, Translations,
};
use orphanage::util::date_wrapper::DateWrapper;

fn mapping(field: &str) -> Mapping {
    Mapping {
        field: field.to_string(),
        datatype: DataType::String,
        query: QueryType::Equal,
        optional: None,
    }
}

fn collection(fields: &[&str]) -> NameMap<Mapping> {
    let mut m = NameMap::new();
    for f in fields {
        m.insert(f.to_string(), mapping(f));
    }
    m
}

fn definitions(entries: Vec<(&str, NameMap<Mapping>)>) -> QueryDefinitions {
    let mut m = NameMap::new();
    for (name, params) in entries {
        m.insert(name.to_string(), params);
    }
    QueryDefinitions::from_collections(m)
}

fn sorted(mut v: Vec<String>) -> Vec<String> {
    v.sort();
    v
}

#[test]
fn name_map_reads_back_what_was_set() {
    let mut m: NameMap<i32> = NameMap::new();
    assert_eq!(m.get("a"), None);
    m.insert("a".to_string(), 1);
    m.insert("b".to_string(), 2);
    assert_eq!(m.get("a"), Some(&1));
    assert_eq!(m.get("b"), Some(&2));
    m.insert("a".to_string(), 3);
    assert_eq!(m.get("a"), Some(&3));
    assert_eq!(m.get("b"), Some(&2));
    assert_eq!(sorted(m.names()), vec!["a".to_string(), "b".to_string()]);
}

#[test]
fn name_map_extend_prefers_the_added_values() {
    let mut m: NameMap<i32> = NameMap::new();
    m.insert("a".to_string(), 1);
    m.insert("b".to_string(), 2);
    let mut more: NameMap<i32> = NameMap::new();
    more.insert("b".to_string(), 20);
    more.insert("c".to_string(), 30);
    m.extend(more);
    assert_eq!(m.get("a"), Some(&1));
    assert_eq!(m.get("b"), Some(&20));
    assert_eq!(m.get("c"), Some(&30));
    assert_eq!(sorted(m.names()), vec!["a".to_string(), "b".to_string(), "c".to_string()]);
}

#[test]
fn no_definitions_have_no_names() {
    assert!(QueryDefinitions::new().get_names().is_empty());
}

#[test]
fn get_names_lists_each_collection_once() {
    let d = definitions(vec![
        ("sequence", collection(&["base"])),
        ("pairing", collection(&["base"])),
        ("sequence", collection(&["seq_type"])),
    ]);
    assert_eq!(sorted(d.get_names()), vec!["pairing".to_string(), "sequence".to_string()]);
}

#[test]
fn add_def_later_definitions_win() {
    let a = definitions(vec![
        ("sequence", collection(&["base"])),
        ("pairing", collection(&["airline_code"])),
    ]);
    let b = definitions(vec![("sequence", collection(&["seq_type", "odan"]))]);
    let merged = a.add_def(b);
    assert_eq!(sorted(merged.get_names()), vec!["pairing".to_string(), "sequence".to_string()]);
    let sequence = merged.collections().get("sequence").unwrap();
    assert_eq!(sorted(sequence.names()), vec!["odan".to_string(), "seq_type".to_string()]);
    assert!(sequence.get("base").is_none());
    let pairing = merged.collections().get("pairing").unwrap();
    assert_eq!(pairing.get("airline_code").unwrap().field, "airline_code");
}

#[test]
fn add_def_with_no_definitions_changes_nothing() {
    let a = definitions(vec![("sequence", collection(&["base"]))]);
    let merged = QueryDefinitions::new().add_def(a).add_def(QueryDefinitions::new());
    assert_eq!(merged.get_names(), vec!["sequence".to_string()]);
    assert!(merged.collections().get("sequence").unwrap().get("base").is_some());
}

#[test]
fn range_mapping_keeps_its_bounds() {
    let mut params = NameMap::new();
    params.insert(
        "start_date_start".to_string(),
        Mapping {
            field: "start_date".to_string(),
            datatype: DataType::Date,
            query: QueryType::Range(Range {
                bound: RangeBound::InclusiveLower,
                min: Some(RangeType::Date(DateWrapper { millis: 0 })),
                max: Some(RangeType::Int(7)),
            }),
            optional: Some(true),
        },
    );
    let m = params.get("start_date_start").unwrap();
    assert_eq!(m.datatype, DataType::Date);
    match m.query {
        QueryType::Range(r) => assert_eq!(r.bound, RangeBound::InclusiveLower),
        QueryType::Equal => panic!("expected a range"),
    }
}

#[test]
fn translations_get_names() {
    let mut defs = NameMap::new();
    defs.insert(
        "start".to_string(),
        TranslationMapping {
            field: "start_date".to_string(),
            query_type: TranslationQueryType::DateRange(TranslationRangeBound::InclusiveLower),
        },
    );
    let mut collections = NameMap::new();
    collections.insert("sequence".to_string(), defs);
    let t = Translations::from_collections(collections);
    assert_eq!(t.get_names(), vec!["sequence".to_string()]);
    let got = t.collections().get("sequence").unwrap().get("start").unwrap();
    assert_eq!(got.query_type, TranslationQueryType::DateRange(TranslationRangeBound::InclusiveLower));
}

#[test]
fn args_default_uri() {
    assert_eq!(args(None).uri, "mongodb://localhost:27017");
}

#[test]
fn args_given_uri() {
    assert_eq!(args(Some("mongodb://db:27018".to_string())).uri, "mongodb://db:27018");
}
