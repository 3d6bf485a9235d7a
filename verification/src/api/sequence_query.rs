//! The filter document of the `/sequence/query` endpoint.

use vstd::prelude::*;
use crate::util::date_wrapper::DateWrapper;
use crate::util::document::{
    BsonModel, bson_string, doc_entries, doc_new, keys_within, opt_entry, put_next,
};
use crate::util::{
    opt_bool_bson, opt_bool_model, opt_date_bson, opt_date_model, opt_doc_bson, opt_doc_model,
    opt_int_bson, opt_int_model, opt_oid_bson, opt_oid_model, opt_string_bson, opt_string_model,
    query_range, spec_query_range,
};

verus! {

/// The parameters of a sequence query: the four identifying fields are
/// required, every other filter is optional.
#[derive(Debug)]
pub struct SequenceQuery {
    pub airline_code: String,
    pub contract_month: String,
    pub seq_type: String,
    pub base: String,
    /// The twelve bytes of the sequence's object id.
    pub _id: Option<[u8; 12]>,
    pub base_indicator: Option<String>,
    pub start_date_start: Option<DateWrapper>,
    pub start_date_end: Option<DateWrapper>,
    pub end_date_start: Option<DateWrapper>,
    pub end_date_end: Option<DateWrapper>,
    pub duration_day_min: Option<i32>,
    pub duration_day_max: Option<i32>,
    pub num_legs_min: Option<i32>,
    pub num_legs_max: Option<i32>,
    pub odan: Option<bool>,
    pub red_eye: Option<bool>,
    pub training: Option<bool>,
    pub satellite: Option<bool>,
    pub observation_trip: Option<bool>,
}

/// The fields of a filter document, in the order the filter lists them.
pub open spec fn query_keys() -> Seq<Seq<char>> {
    seq![
        "airline_code"@,
        "contract_month"@,
        "seq_type"@,
        "base"@,
        "base_indicator"@,
        "_id"@,
        "start_date"@,
        "end_date"@,
        "duration_day"@,
        "num_legs"@,
        "odan"@,
        "red_eye"@,
        "training"@,
        "satellite"@,
        "observation_trip"@,
    ]
}

/// No field of a filter document is listed twice.
pub proof fn lemma_query_keys_distinct()
    ensures
        query_keys().no_duplicates(),
{
    reveal_strlit("airline_code");
    reveal_strlit("contract_month");
    reveal_strlit("seq_type");
    reveal_strlit("base");
    reveal_strlit("base_indicator");
    reveal_strlit("_id");
    reveal_strlit("start_date");
    reveal_strlit("end_date");
    reveal_strlit("duration_day");
    reveal_strlit("num_legs");
    reveal_strlit("odan");
    reveal_strlit("red_eye");
    reveal_strlit("training");
    reveal_strlit("satellite");
    reveal_strlit("observation_trip");
    assert("airline_code"@[0] == 'a' && "airline_code"@.len() == 12);
    assert("contract_month"@[0] == 'c' && "contract_month"@.len() == 14);
    assert("seq_type"@[0] == 's' && "seq_type"@.len() == 8);
    assert("base"@[0] == 'b' && "base"@.len() == 4);
    assert("base_indicator"@[0] == 'b' && "base_indicator"@.len() == 14);
    assert("_id"@[0] == '_' && "_id"@.len() == 3);
    assert("start_date"@[0] == 's' && "start_date"@.len() == 10);
    assert("end_date"@[0] == 'e' && "end_date"@.len() == 8);
    assert("duration_day"@[0] == 'd' && "duration_day"@.len() == 12);
    assert("num_legs"@[0] == 'n' && "num_legs"@.len() == 8);
    assert("odan"@[0] == 'o' && "odan"@.len() == 4);
    assert("red_eye"@[0] == 'r' && "red_eye"@.len() == 7);
    assert("training"@[0] == 't' && "training"@.len() == 8);
    assert("satellite"@[0] == 's' && "satellite"@.len() == 9);
    assert("observation_trip"@[0] == 'o' && "observation_trip"@.len() == 16);
}

impl SequenceQuery {
    /// The filter document: the four required fields matched exactly, then
    /// each optional filter that is given, in a fixed order. A date or count
    /// filter is a `$gte` / `$lte` range over the bounds that are given.
    pub open spec fn spec_to_query(self) -> Seq<(Seq<char>, BsonModel)> {
        seq![
            ("airline_code"@, BsonModel::String(self.airline_code@)),
            ("contract_month"@, BsonModel::String(self.contract_month@)),
            ("seq_type"@, BsonModel::String(self.seq_type@)),
            ("base"@, BsonModel::String(self.base@)),
        ] + opt_entry("base_indicator"@, opt_string_model(self.base_indicator)) + opt_entry(
            "_id"@,
            opt_oid_model(self._id),
        ) + opt_entry(
            "start_date"@,
            opt_doc_model(
                spec_query_range(
                    opt_date_model(self.start_date_start),
                    opt_date_model(self.start_date_end),
                ),
            ),
        ) + opt_entry(
            "end_date"@,
            opt_doc_model(
                spec_query_range(
                    opt_date_model(self.end_date_start),
                    opt_date_model(self.end_date_end),
                ),
            ),
        ) + opt_entry(
            "duration_day"@,
            opt_doc_model(
                spec_query_range(
                    opt_int_model(self.duration_day_min),
                    opt_int_model(self.duration_day_max),
                ),
            ),
        ) + opt_entry(
            "num_legs"@,
            opt_doc_model(
                spec_query_range(opt_int_model(self.num_legs_min), opt_int_model(self.num_legs_max)),
            ),
        ) + opt_entry("odan"@, opt_bool_model(self.odan)) + opt_entry(
            "red_eye"@,
            opt_bool_model(self.red_eye),
        ) + opt_entry("training"@, opt_bool_model(self.training)) + opt_entry(
            "satellite"@,
            opt_bool_model(self.satellite),
        ) + opt_entry("observation_trip"@, opt_bool_model(self.observation_trip))
    }

    /// Builds the MongoDB filter document for this query.
    #[verifier::rlimit(60)]
    pub fn to_query(&self) -> (query: bson::Document)
        ensures
            doc_entries(query) == self.spec_to_query(),
    {
        let ghost ks = query_keys();
        proof {
            lemma_query_keys_distinct();
            assert(keys_within(Seq::empty(), ks.take(0)));
        }
        let mut query = doc_new();
        put_next(&mut query, "airline_code", Some(bson_string(self.airline_code.as_str())), Ghost(ks), Ghost(0));
        put_next(&mut query, "contract_month", Some(bson_string(self.contract_month.as_str())), Ghost(ks), Ghost(1));
        put_next(&mut query, "seq_type", Some(bson_string(self.seq_type.as_str())), Ghost(ks), Ghost(2));
        put_next(&mut query, "base", Some(bson_string(self.base.as_str())), Ghost(ks), Ghost(3));
        put_next(&mut query, "base_indicator", opt_string_bson(&self.base_indicator), Ghost(ks), Ghost(4));
        put_next(&mut query, "_id", opt_oid_bson(&self._id), Ghost(ks), Ghost(5));
        let start_range = query_range(opt_date_bson(&self.start_date_start), opt_date_bson(&self.start_date_end));
        put_next(&mut query, "start_date", opt_doc_bson(start_range), Ghost(ks), Ghost(6));
        let end_range = query_range(opt_date_bson(&self.end_date_start), opt_date_bson(&self.end_date_end));
        put_next(&mut query, "end_date", opt_doc_bson(end_range), Ghost(ks), Ghost(7));
        let duration_range = query_range(opt_int_bson(&self.duration_day_min), opt_int_bson(&self.duration_day_max));
        put_next(&mut query, "duration_day", opt_doc_bson(duration_range), Ghost(ks), Ghost(8));
        let leg_num_range = query_range(opt_int_bson(&self.num_legs_min), opt_int_bson(&self.num_legs_max));
        put_next(&mut query, "num_legs", opt_doc_bson(leg_num_range), Ghost(ks), Ghost(9));
        put_next(&mut query, "odan", opt_bool_bson(&self.odan), Ghost(ks), Ghost(10));
        put_next(&mut query, "red_eye", opt_bool_bson(&self.red_eye), Ghost(ks), Ghost(11));
        put_next(&mut query, "training", opt_bool_bson(&self.training), Ghost(ks), Ghost(12));
        put_next(&mut query, "satellite", opt_bool_bson(&self.satellite), Ghost(ks), Ghost(13));
        put_next(&mut query, "observation_trip", opt_bool_bson(&self.observation_trip), Ghost(ks), Ghost(14));
        assert(doc_entries(query) =~= self.spec_to_query());
        query
    }
}

} // verus!
