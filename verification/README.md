# orphanage

A small HTTP service over MongoDB that answers crew-sequence queries. The
library in `src/` builds what the service sends to the database, with Verus
contracts:

- `api::sequence_query::SequenceQuery::to_query`: the filter document of
  `/sequence/query`;
- `api::sequence_search::SequenceSearch::to_search_pipeline`: the Atlas
  Search pipeline of `/sequence/search`;
- `util::{query_range, search_range}`: the range filters both use;
- `translation`: the query and translation definitions the service loads,
  kept in `NameMap`, a name-keyed map whose names never repeat.

Documents are `bson::Document` values; `util::document` gives each document a
model (its entries in order) through a few trusted calls into `bson`. The laws
that tie the builders together (the search range is the filter range with its
keys renamed; a query and a search of the same parameters constrain the same
fields; setting one filter adds exactly its clause) are proof functions in
`util/mod.rs`, `api/mod.rs` and `api/search_filters.rs`.

`app/` is the service itself: command line, HTTP handlers, database calls and
reading the definition files.
