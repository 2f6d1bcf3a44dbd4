# penumbra-explorer

The staking indexer and the query resolvers of the Penumbra explorer backend,
with their decisions verified in Verus.

- `src/decimal.rs`: decimal text to `i64`, with the grammar of `str::parse::<i64>`.
- `src/json.rs`: the JSON values the indexer reads, and member lookup.
- `src/staking.rs`: the delegations, undelegations and undelegation claims of a
  transaction, and the rows stored for them.
- `src/query.rs`: page sizes, windows, orderings, filters and staking statistics
  of the resolvers.
- `app/`: the database, GraphQL and JSON plumbing around the library.
