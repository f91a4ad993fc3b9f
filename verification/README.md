# eig-db model

The data model of the edge database service: query objects, the records
exchanged with the service, and the rendering of queries as URL query
strings, verified with Verus.

- `src/text.rs`: decimal and boolean text, and the form of a query string
  (`'?'` followed by `key=value` entries joined by `'&'`).
- `src/query.rs`: the query types and their `query_str`, each proved to give
  exactly the entries of its set fields, in a fixed order.
- `src/readback.rs`: what a reader of such a string gets back: splitting at
  `'&'` and looking up a key yields the field's text, and two queries with the
  same string agree on all fields, when their text fields hold no `'&'`.
- `src/model.rs`: users, roles, alarm settings, requests, devices, versions.
- `app/`: serde copies of the library types, for the wire.
