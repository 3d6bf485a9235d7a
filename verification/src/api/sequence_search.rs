//! The Atlas Search pipeline of the `/sequence/search` endpoint.

use vstd::prelude::*;
use crate::util::date_wrapper::DateWrapper;
use crate::util::document::{
    BsonModel, bson_document, bson_document_array, bson_string, doc_entries, doc_new, doc_value,
    opt_model, put, lemma_fresh_key,
};
use crate::util::{
    opt_bool_bson, opt_bool_model, opt_date_bson, opt_date_model, opt_doc_entries, opt_int_bson,
    opt_int_model, opt_oid_bson, opt_oid_model, search_range, spec_search_range,
};

verus! {

/// The parameters of a sequence search: the four identifying fields are
/// required, every other filter is optional.
#[derive(Debug)]
pub struct SequenceSearch {
    pub airline_code: String,
    pub contract_month: String,
    pub seq_type: String,
    pub base: String,
    /// The twelve bytes of the sequence's object id.
    pub _id: Option<[u8; 12]>,
    pub base_indicator: Option<String>,
    pub start_date_start: Option<DateWrapper>,
    pub start_date_end: Option<DateWrapper>,
    pub end_date_start: Option<DateWrapper>,
    pub end_date_end: Option<DateWrapper>,
    pub duration_day_min: Option<i32>,
    pub duration_day_max: Option<i32>,
    pub num_legs_min: Option<i32>,
    pub num_legs_max: Option<i32>,
    pub odan: Option<bool>,
    pub red_eye: Option<bool>,
    pub training: Option<bool>,
    pub satellite: Option<bool>,
    pub observation_trip: Option<bool>,
}

/// The entries of each document, in order.
#[verifier::opaque]
pub open spec fn docs_entries(docs: Seq<bson::Document>) -> Seq<Seq<(Seq<char>, BsonModel)>> {
    docs.map_values(|d: bson::Document| doc_entries(d))
}

/// The clause `{"text": {"path": path, "query": query}}`.
pub open spec fn text_clause(path: Seq<char>, query: Seq<char>) -> Seq<(Seq<char>, BsonModel)> {
    seq![
        ("text"@, BsonModel::Document(
            seq![("path"@, BsonModel::String(path)), ("query"@, BsonModel::String(query))],
        )),
    ]
}

/// The clause `{"equals": {"path": path, "value": value}}`.
pub open spec fn equals_clause(path: Seq<char>, value: BsonModel) -> Seq<(Seq<char>, BsonModel)> {
    seq![("equals"@, BsonModel::Document(seq![("path"@, BsonModel::String(path)), ("value"@, value)]))]
}

/// The `text` clause on `path` when a text is given.
pub open spec fn opt_text_clause(path: Seq<char>, query: Option<String>) -> Option<
    Seq<(Seq<char>, BsonModel)>,
> {
    match query {
        Some(q) => Some(text_clause(path, q@)),
        None => None,
    }
}

/// The `equals` clause on `path` when a value is given.
pub open spec fn opt_equals_clause(path: Seq<char>, value: Option<BsonModel>) -> Option<
    Seq<(Seq<char>, BsonModel)>,
> {
    match value {
        Some(v) => Some(equals_clause(path, v)),
        None => None,
    }
}

/// The clause when there is one.
pub open spec fn opt_clause(c: Option<Seq<(Seq<char>, BsonModel)>>) -> Seq<
    Seq<(Seq<char>, BsonModel)>,
> {
    match c {
        Some(x) => seq![x],
        None => Seq::empty(),
    }
}

/// The optional filters of a search, in the order their clauses come.
#[derive(Debug, Clone, Copy, PartialEq, Eq)]
pub enum OptionalFilter {
    BaseIndicator,
    Id,
    StartDate,
    EndDate,
    DurationDay,
    NumLegs,
    Odan,
    RedEye,
    Training,
    Satellite,
    ObservationTrip,
}

impl SequenceSearch {
    /// The clause of one optional filter, when that filter is given: `text`
    /// for the base indicator, `equals` for the id and the flags, `range` for
    /// a date or count with at least one bound.
    pub open spec fn clause_of(self, f: OptionalFilter) -> Option<Seq<(Seq<char>, BsonModel)>> {
        match f {
            OptionalFilter::BaseIndicator => opt_text_clause("base_indicator"@, self.base_indicator),
            OptionalFilter::Id => opt_equals_clause("_id"@, opt_oid_model(self._id)),
            OptionalFilter::StartDate => spec_search_range(
                "start_date"@,
                opt_date_model(self.start_date_start),
                opt_date_model(self.start_date_end),
            ),
            OptionalFilter::EndDate => spec_search_range(
                "end_date"@,
                opt_date_model(self.end_date_start),
                opt_date_model(self.end_date_end),
            ),
            OptionalFilter::DurationDay => spec_search_range(
                "duration_day"@,
                opt_int_model(self.duration_day_min),
                opt_int_model(self.duration_day_max),
            ),
            OptionalFilter::NumLegs => spec_search_range(
                "num_legs"@,
                opt_int_model(self.num_legs_min),
                opt_int_model(self.num_legs_max),
            ),
            OptionalFilter::Odan => opt_equals_clause("odan"@, opt_bool_model(self.odan)),
            OptionalFilter::RedEye => opt_equals_clause("red_eye"@, opt_bool_model(self.red_eye)),
            OptionalFilter::Training => opt_equals_clause("training"@, opt_bool_model(self.training)),
            OptionalFilter::Satellite => opt_equals_clause("satellite"@, opt_bool_model(self.satellite)),
            OptionalFilter::ObservationTrip => opt_equals_clause(
                "observation_trip"@,
                opt_bool_model(self.observation_trip),
            ),
        }
    }

    /// The `text` clauses of the four required fields.
    pub open spec fn required_clauses(self) -> Seq<Seq<(Seq<char>, BsonModel)>> {
        seq![
            text_clause("airline_code"@, self.airline_code@),
            text_clause("contract_month"@, self.contract_month@),
            text_clause("seq_type"@, self.seq_type@),
            text_clause("base"@, self.base@),
        ]
    }

    /// The clauses that a matching sequence must satisfy: those of the
    /// required fields, then the clause of each optional filter that is
    /// given, in the order of [`OptionalFilter`].
    pub open spec fn spec_musts(self) -> Seq<Seq<(Seq<char>, BsonModel)>> {
        self.required_clauses() + opt_clause(self.clause_of(OptionalFilter::BaseIndicator))
            + opt_clause(self.clause_of(OptionalFilter::Id)) + opt_clause(
            self.clause_of(OptionalFilter::StartDate),
        ) + opt_clause(self.clause_of(OptionalFilter::EndDate)) + opt_clause(
            self.clause_of(OptionalFilter::DurationDay),
        ) + opt_clause(self.clause_of(OptionalFilter::NumLegs)) + opt_clause(
            self.clause_of(OptionalFilter::Odan),
        ) + opt_clause(self.clause_of(OptionalFilter::RedEye)) + opt_clause(
            self.clause_of(OptionalFilter::Training),
        ) + opt_clause(self.clause_of(OptionalFilter::Satellite)) + opt_clause(
            self.clause_of(OptionalFilter::ObservationTrip),
        )
    }

    /// A pipeline of one `$search` stage over the `default` index whose
    /// compound operator requires every clause of [`Self::spec_musts`].
    pub open spec fn spec_to_search_pipeline(self) -> Seq<Seq<(Seq<char>, BsonModel)>> {
        seq![
            seq![
                ("$search"@, BsonModel::Document(
                    seq![
                        ("index"@, BsonModel::String("default"@)),
                        ("compound"@, BsonModel::Document(
                            seq![
                                ("must"@, BsonModel::Array(
                                    self.spec_musts().map_values(
                                        |c: Seq<(Seq<char>, BsonModel)>| BsonModel::Document(c),
                                    ),
                                )),
                            ],
                        )),
                    ],
                )),
            ],
        ]
    }

    /// The clauses of the required fields, as documents.
    fn required_clause_docs(&self) -> (musts: Vec<bson::Document>)
        ensures
            docs_entries(musts@) == self.required_clauses(),
    {
        let mut musts: Vec<bson::Document> = Vec::new();
        proof {
            reveal(docs_entries);
            assert(docs_entries(musts@) =~= Seq::empty());
        }
        push_clause(&mut musts, Some(text_clause_doc("airline_code", self.airline_code.as_str())));
        push_clause(&mut musts, Some(text_clause_doc("contract_month", self.contract_month.as_str())));
        push_clause(&mut musts, Some(text_clause_doc("seq_type", self.seq_type.as_str())));
        push_clause(&mut musts, Some(text_clause_doc("base", self.base.as_str())));
        assert(docs_entries(musts@) =~= self.required_clauses());
        musts
    }

    /// Appends the clauses of the base indicator, the id and the four ranges
    /// that are given.
    fn push_text_id_and_range_clauses(&self, musts: &mut Vec<bson::Document>)
        ensures
            docs_entries(final(musts)@) == docs_entries(old(musts)@) + opt_clause(
                self.clause_of(OptionalFilter::BaseIndicator),
            ) + opt_clause(self.clause_of(OptionalFilter::Id)) + opt_clause(
                self.clause_of(OptionalFilter::StartDate),
            ) + opt_clause(self.clause_of(OptionalFilter::EndDate)) + opt_clause(
                self.clause_of(OptionalFilter::DurationDay),
            ) + opt_clause(self.clause_of(OptionalFilter::NumLegs)),
    {
        let base_indicator = match &self.base_indicator {
            Some(bi) => Some(text_clause_doc("base_indicator", bi.as_str())),
            None => None,
        };
        push_clause(musts, base_indicator);
        push_clause(musts, opt_equals_clause_doc("_id", opt_oid_bson(&self._id)));
        push_clause(
            musts,
            search_range("start_date", opt_date_bson(&self.start_date_start), opt_date_bson(&self.start_date_end)),
        );
        push_clause(
            musts,
            search_range("end_date", opt_date_bson(&self.end_date_start), opt_date_bson(&self.end_date_end)),
        );
        push_clause(
            musts,
            search_range("duration_day", opt_int_bson(&self.duration_day_min), opt_int_bson(&self.duration_day_max)),
        );
        push_clause(
            musts,
            search_range("num_legs", opt_int_bson(&self.num_legs_min), opt_int_bson(&self.num_legs_max)),
        );
    }

    /// Appends the clauses of the flags that are given.
    fn push_flag_clauses(&self, musts: &mut Vec<bson::Document>)
        ensures
            docs_entries(final(musts)@) == docs_entries(old(musts)@) + opt_clause(
                self.clause_of(OptionalFilter::Odan),
            ) + opt_clause(self.clause_of(OptionalFilter::RedEye)) + opt_clause(
                self.clause_of(OptionalFilter::Training),
            ) + opt_clause(self.clause_of(OptionalFilter::Satellite)) + opt_clause(
                self.clause_of(OptionalFilter::ObservationTrip),
            ),
    {
        push_clause(musts, opt_equals_clause_doc("odan", opt_bool_bson(&self.odan)));
        push_clause(musts, opt_equals_clause_doc("red_eye", opt_bool_bson(&self.red_eye)));
        push_clause(musts, opt_equals_clause_doc("training", opt_bool_bson(&self.training)));
        push_clause(musts, opt_equals_clause_doc("satellite", opt_bool_bson(&self.satellite)));
        push_clause(musts, opt_equals_clause_doc("observation_trip", opt_bool_bson(&self.observation_trip)));
    }

    /// The clauses of [`Self::spec_musts`], as documents.
    fn musts(&self) -> (musts: Vec<bson::Document>)
        ensures
            docs_entries(musts@) == self.spec_musts(),
    {
        let mut musts = self.required_clause_docs();
        self.push_text_id_and_range_clauses(&mut musts);
        self.push_flag_clauses(&mut musts);
        musts
    }

    /// Builds the aggregation pipeline for this search.
    pub fn to_search_pipeline(&self) -> (pipeline: Vec<bson::Document>)
        ensures
            docs_entries(pipeline@) == self.spec_to_search_pipeline(),
    {
        let musts = self.musts();
        proof {
            reveal(docs_entries);
        }
        assert(musts@.map_values(|d: bson::Document| doc_value(d)) =~= self.spec_musts().map_values(
            |c: Seq<(Seq<char>, BsonModel)>| BsonModel::Document(c),
        ));
        proof {
            reveal_strlit("index");
            reveal_strlit("compound");
        }
        let mut compound = doc_new();
        put(&mut compound, "must", bson_document_array(musts));
        let mut search = doc_new();
        put(&mut search, "index", bson_string("default"));
        assert("index"@.len() != "compound"@.len());
        proof {
            lemma_fresh_key(doc_entries(search), "compound"@);
        }
        put(&mut search, "compound", bson_document(compound));
        let ghost must_value = BsonModel::Array(
            self.spec_musts().map_values(|c: Seq<(Seq<char>, BsonModel)>| BsonModel::Document(c)),
        );
        assert(doc_entries(compound) =~= seq![("must"@, must_value)]);
        assert(doc_entries(search) =~= seq![
            ("index"@, BsonModel::String("default"@)),
            ("compound"@, BsonModel::Document(seq![("must"@, must_value)])),
        ]);
        let mut stage = doc_new();
        put(&mut stage, "$search", bson_document(search));
        let pipeline = vec![stage];
        proof {
            reveal(docs_entries);
        }
        assert(docs_entries(pipeline@) =~= self.spec_to_search_pipeline());
        pipeline
    }
}

/// Builds `{"text": {"path": path, "query": query}}`.
fn text_clause_doc(path: &str, query: &str) -> (d: bson::Document)
    ensures
        doc_entries(d) == text_clause(path@, query@),
{
    proof {
        reveal_strlit("path");
        reveal_strlit("query");
    }
    let mut inner = doc_new();
    put(&mut inner, "path", bson_string(path));
    assert("path"@.len() != "query"@.len());
    proof {
        lemma_fresh_key(doc_entries(inner), "query"@);
    }
    put(&mut inner, "query", bson_string(query));
    assert(doc_entries(inner) =~= seq![("path"@, BsonModel::String(path@)), ("query"@, BsonModel::String(query@))]);
    let mut clause = doc_new();
    put(&mut clause, "text", bson_document(inner));
    assert(doc_entries(clause) =~= text_clause(path@, query@));
    clause
}

/// Builds `{"equals": {"path": path, "value": value}}` when a value is given.
fn opt_equals_clause_doc(path: &str, value: Option<bson::Bson>) -> (d: Option<bson::Document>)
    ensures
        opt_doc_entries(d) == opt_equals_clause(path@, opt_model(value)),
{
    match value {
        Some(v) => {
            proof {
                reveal_strlit("path");
                reveal_strlit("value");
            }
            let mut inner = doc_new();
            put(&mut inner, "path", bson_string(path));
            assert("path"@.len() != "value"@.len());
            proof {
                lemma_fresh_key(doc_entries(inner), "value"@);
            }
            put(&mut inner, "value", v);
            assert(doc_entries(inner) =~= seq![("path"@, BsonModel::String(path@)), ("value"@, opt_model(value)->0)]);
            let mut clause = doc_new();
            put(&mut clause, "equals", bson_document(inner));
            assert(doc_entries(clause) =~= equals_clause(path@, opt_model(value)->0));
            Some(clause)
        },
        None => None,
    }
}

/// Appends the clause when there is one.
fn push_clause(musts: &mut Vec<bson::Document>, clause: Option<bson::Document>)
    ensures
        docs_entries(final(musts)@) == docs_entries(old(musts)@) + opt_clause(opt_doc_entries(clause)),
{
    match clause {
        Some(c) => {
            musts.push(c);
        },
        None => {},
    }
    reveal(docs_entries);
    assert(docs_entries(musts@) =~= docs_entries(old(musts)@) + opt_clause(opt_doc_entries(clause)));
}

} // verus!
