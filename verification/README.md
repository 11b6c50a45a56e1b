# nft_api

The request logic of a read-only NFT API, verified with Verus.

- `src/` is the library: paging (`endpoints::PaginationParams`), the query
  filters each endpoint sends to the database (`filter::Filter`, an ordered
  list of `field == value` conditions with each field named once), identity
  strings, visitor tokens, rate-limit keys, the health report, and the answer
  (`reply::Reply`) of each endpoint.
- `app/` is the HTTP server (actix-web, sessions, identities, rate limits)
  and the database calls; it runs the steps that the library decides.
- `tests/` runs the library on concrete requests.
