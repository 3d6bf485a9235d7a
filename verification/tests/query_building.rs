use bson::{Bson, Document};
use orphanage::api::sequence_query::SequenceQuery;
use orphanage::api::sequence_search::SequenceSearch;
use orphanage::util::date_wrapper::DateWrapper;
use orphanage::util::{query_range, search_range};

const OID: [u8; 12] = [0x64, 0x1f, 0x2a, 0x3b, 0x4c, 0x5d, 0x6e, 0x7f, 0x80, 0x91, 0xa2, 0xb3];

fn doc(entries: Vec<(&str, Bson)>) -> Document {
    let mut d = Document::new();
    for (k, v) in entries {
        d.insert(k, v);
    }
    d
}

fn keys(d: &Document) -> Vec<String> {
    d.keys().cloned().collect()
}

fn date(millis: i64) -> Bson {
    Bson::DateTime(bson::DateTime::from_millis(millis))
}

fn bare_query() -> SequenceQuery {
    SequenceQuery {
        airline_code: "UA".to_string(),
        contract_month: "2023-07".to_string(),
        seq_type: "regular".to_string(),
        base: "SFO".to_string(),
        _id: None,
        base_indicator: None,
        start_date_start: None,
        start_date_end: None,
        end_date_start: None,
        end_date_end: None,
        duration_day_min: None,
        duration_day_max: None,
        num_legs_min: None,
        num_legs_max: None,
        odan: None,
        red_eye: None,
        training: None,
        satellite: None,
        observation_trip: None,
    }
}

fn full_query() -> SequenceQuery {
    SequenceQuery {
        _id: Some(OID),
        base_indicator: Some("D".to_string()),
        start_date_start: Some(DateWrapper { millis: 1_688_169_600_000 }),
        start_date_end: Some(DateWrapper { millis: 1_690_761_600_000 }),
        end_date_start: None,
        end_date_end: Some(DateWrapper { millis: 1_690_848_000_000 }),
        duration_day_min: Some(2),
        duration_day_max: Some(4),
        num_legs_min: Some(3),
        num_legs_max: None,
        odan: Some(false),
        red_eye: Some(true),
        training: Some(false),
        satellite: Some(true),
        observation_trip: Some(false),
        ..bare_query()
    }
}

fn search_of(q: SequenceQuery) -> SequenceSearch {
    SequenceSearch {
        airline_code: q.airline_code,
        contract_month: q.contract_month,
        seq_type: q.seq_type,
        base: q.base,
        _id: q._id,
        base_indicator: q.base_indicator,
        start_date_start: q.start_date_start,
        start_date_end: q.start_date_end,
        end_date_start: q.end_date_start,
        end_date_end: q.end_date_end,
        duration_day_min: q.duration_day_min,
        duration_day_max: q.duration_day_max,
        num_legs_min: q.num_legs_min,
        num_legs_max: q.num_legs_max,
        odan: q.odan,
        red_eye: q.red_eye,
        training: q.training,
        satellite: q.satellite,
        observation_trip: q.observation_trip,
    }
}

#[test]
fn query_range_without_bounds_is_none() {
    assert_eq!(query_range(None, None), None);
}

#[test]
fn query_range_with_lower_bound_only() {
    let r = query_range(Some(Bson::Int32(3)), None).unwrap();
    assert_eq!(r, doc(vec![("$gte", Bson::Int32(3))]));
    assert_eq!(keys(&r), vec!["$gte"]);
}

#[test]
fn query_range_with_upper_bound_only() {
    let r = query_range(None, Some(date(1_000))).unwrap();
    assert_eq!(r, doc(vec![("$lte", date(1_000))]));
}

#[test]
fn query_range_with_both_bounds_in_order() {
    let r = query_range(Some(Bson::Int32(2)), Some(Bson::Int32(4))).unwrap();
    assert_eq!(r, doc(vec![("$gte", Bson::Int32(2)), ("$lte", Bson::Int32(4))]));
    assert_eq!(keys(&r), vec!["$gte", "$lte"]);
}

#[test]
fn search_range_without_bounds_is_none() {
    assert_eq!(search_range("num_legs", None, None), None);
}

#[test]
fn search_range_with_both_bounds() {
    let r = search_range("duration_day", Some(Bson::Int32(2)), Some(Bson::Int32(4))).unwrap();
    let inner = doc(vec![
        ("gte", Bson::Int32(2)),
        ("lte", Bson::Int32(4)),
        ("path", Bson::String("duration_day".to_string())),
    ]);
    assert_eq!(r, doc(vec![("range", Bson::Document(inner.clone()))]));
    match r.get("range") {
        Some(Bson::Document(d)) => assert_eq!(keys(d), vec!["gte", "lte", "path"]),
        other => panic!("unexpected {:?}", other),
    }
}

#[test]
fn search_range_with_upper_bound_only() {
    let r = search_range("end_date", None, Some(date(5))).unwrap();
    let inner = doc(vec![("lte", date(5)), ("path", Bson::String("end_date".to_string()))]);
    assert_eq!(r, doc(vec![("range", Bson::Document(inner))]));
}

#[test]
fn ranges_exist_together() {
    for (s, e) in [(None, None), (Some(1), None), (None, Some(2)), (Some(1), Some(2))] {
        let q = query_range(s.map(Bson::Int32), e.map(Bson::Int32));
        let r = search_range("num_legs", s.map(Bson::Int32), e.map(Bson::Int32));
        assert_eq!(q.is_some(), r.is_some());
    }
}

#[test]
fn date_wrapper_into_bson_keeps_millis() {
    let b = DateWrapper { millis: 1_688_169_600_000 }.into_bson();
    assert_eq!(b, date(1_688_169_600_000));
}

#[test]
fn to_query_required_fields_only() {
    let q = bare_query().to_query();
    let expected = doc(vec![
        ("airline_code", Bson::String("UA".to_string())),
        ("contract_month", Bson::String("2023-07".to_string())),
        ("seq_type", Bson::String("regular".to_string())),
        ("base", Bson::String("SFO".to_string())),
    ]);
    assert_eq!(q, expected);
    assert_eq!(keys(&q), vec!["airline_code", "contract_month", "seq_type", "base"]);
}

#[test]
fn to_query_with_every_filter() {
    let q = full_query().to_query();
    let expected = doc(vec![
        ("airline_code", Bson::String("UA".to_string())),
        ("contract_month", Bson::String("2023-07".to_string())),
        ("seq_type", Bson::String("regular".to_string())),
        ("base", Bson::String("SFO".to_string())),
        ("base_indicator", Bson::String("D".to_string())),
        ("_id", Bson::ObjectId(bson::oid::ObjectId::from_bytes(OID))),
        (
            "start_date",
            Bson::Document(doc(vec![
                ("$gte", date(1_688_169_600_000)),
                ("$lte", date(1_690_761_600_000)),
            ])),
        ),
        ("end_date", Bson::Document(doc(vec![("$lte", date(1_690_848_000_000))]))),
        (
            "duration_day",
            Bson::Document(doc(vec![("$gte", Bson::Int32(2)), ("$lte", Bson::Int32(4))])),
        ),
        ("num_legs", Bson::Document(doc(vec![("$gte", Bson::Int32(3))]))),
        ("odan", Bson::Boolean(false)),
        ("red_eye", Bson::Boolean(true)),
        ("training", Bson::Boolean(false)),
        ("satellite", Bson::Boolean(true)),
        ("observation_trip", Bson::Boolean(false)),
    ]);
    assert_eq!(q, expected);
    assert_eq!(keys(&q), keys(&expected));
}

fn text(path: &str, query: &str) -> Document {
    doc(vec![(
        "text",
        Bson::Document(doc(vec![
            ("path", Bson::String(path.to_string())),
            ("query", Bson::String(query.to_string())),
        ])),
    )])
}

fn equals(path: &str, value: Bson) -> Document {
    doc(vec![(
        "equals",
        Bson::Document(doc(vec![("path", Bson::String(path.to_string())), ("value", value)])),
    )])
}

fn range(path: &str, bounds: Vec<(&str, Bson)>) -> Document {
    let mut inner = doc(bounds);
    inner.insert("path", path);
    doc(vec![("range", Bson::Document(inner))])
}

fn pipeline(musts: Vec<Document>) -> Vec<Document> {
    vec![doc(vec![(
        "$search",
        Bson::Document(doc(vec![
            ("index", Bson::String("default".to_string())),
            ("compound", Bson::Document(doc(vec![("must", Bson::from(musts))]))),
        ])),
    )])]
}

#[test]
fn search_pipeline_required_fields_only() {
    let p = search_of(bare_query()).to_search_pipeline();
    let expected = pipeline(vec![
        text("airline_code", "UA"),
        text("contract_month", "2023-07"),
        text("seq_type", "regular"),
        text("base", "SFO"),
    ]);
    assert_eq!(p, expected);
    assert_eq!(p.len(), 1);
}

#[test]
fn search_pipeline_with_every_filter() {
    let p = search_of(full_query()).to_search_pipeline();
    let expected = pipeline(vec![
        text("airline_code", "UA"),
        text("contract_month", "2023-07"),
        text("seq_type", "regular"),
        text("base", "SFO"),
        text("base_indicator", "D"),
        equals("_id", Bson::ObjectId(bson::oid::ObjectId::from_bytes(OID))),
        range(
            "start_date",
            vec![("gte", date(1_688_169_600_000)), ("lte", date(1_690_761_600_000))],
        ),
        range("end_date", vec![("lte", date(1_690_848_000_000))]),
        range("duration_day", vec![("gte", Bson::Int32(2)), ("lte", Bson::Int32(4))]),
        range("num_legs", vec![("gte", Bson::Int32(3))]),
        equals("odan", Bson::Boolean(false)),
        equals("red_eye", Bson::Boolean(true)),
        equals("training", Bson::Boolean(false)),
        equals("satellite", Bson::Boolean(true)),
        equals("observation_trip", Bson::Boolean(false)),
    ]);
    assert_eq!(p, expected);
}

fn clause_paths(p: &[Document]) -> Vec<String> {
    let stage = p[0].get_document("$search").unwrap();
    let musts = stage.get_document("compound").unwrap().get_array("must").unwrap();
    musts
        .iter()
        .map(|m| {
            let clause = m.as_document().unwrap();
            let (_, operator) = clause.iter().next().unwrap();
            operator.as_document().unwrap().get_str("path").unwrap().to_string()
        })
        .collect()
}

#[test]
fn query_and_search_constrain_the_same_fields() {
    let filter = full_query().to_query();
    let search = search_of(full_query()).to_search_pipeline();
    assert_eq!(keys(&filter), clause_paths(&search));
    let filter = bare_query().to_query();
    let search = search_of(bare_query()).to_search_pipeline();
    assert_eq!(keys(&filter), clause_paths(&search));
}

fn musts_of(p: &[Document]) -> Vec<Bson> {
    let stage = p[0].get_document("$search").unwrap();
    stage.get_document("compound").unwrap().get_array("must").unwrap().clone()
}

#[test]
fn setting_one_filter_adds_exactly_its_clause() {
    let s1 = search_of(bare_query());
    let mut s2 = search_of(bare_query());
    s2.red_eye = Some(true);
    let m1 = musts_of(&s1.to_search_pipeline());
    let m2 = musts_of(&s2.to_search_pipeline());
    assert_eq!(m2.len(), m1.len() + 1);
    let mut expected = m1.clone();
    expected.insert(4, Bson::Document(equals("red_eye", Bson::Boolean(true))));
    assert_eq!(m2, expected);

    let mut s3 = search_of(full_query());
    s3.num_legs_min = None;
    s3.num_legs_max = None;
    let m3 = musts_of(&s3.to_search_pipeline());
    let m_full = musts_of(&search_of(full_query()).to_search_pipeline());
    let mut expected = m3.clone();
    expected.insert(9, Bson::Document(range("num_legs", vec![("gte", Bson::Int32(3))])));
    assert_eq!(m_full, expected);
}

#[test]
fn search_range_is_the_renamed_query_range() {
    let bounds = [(Some(2), None), (None, Some(9)), (Some(2), Some(9))];
    for (s, e) in bounds {
        let q = query_range(s.map(Bson::Int32), e.map(Bson::Int32)).unwrap();
        let mut renamed = Document::new();
        for (k, v) in q.iter() {
            renamed.insert(k.trim_start_matches('$'), v.clone());
        }
        renamed.insert("path", "num_legs");
        let r = search_range("num_legs", s.map(Bson::Int32), e.map(Bson::Int32)).unwrap();
        match r.get("range") {
            Some(Bson::Document(d)) => {
                assert_eq!(d, &renamed);
                assert_eq!(keys(d), keys(&renamed));
            }
            other => panic!("unexpected {:?}", other),
        }
    }
}
