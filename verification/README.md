# spryzen

Request inspection for an edge web application firewall, written in Verus.

- `src/flags.rs`: the threat bit flags, `is_threat` and the category name.
- `src/scan.rs`: the injection-delimiter table and the pre-filter scan.
- `src/decode.rs`: percent-decoding of paths and queries before the keyword scan.
- `src/patterns.rs`: the keyword table and the category of each keyword.
- `src/automaton.rs`: the keyword automaton (aho-corasick) and its scan.
- `src/endings.rs`: why keywords that end together share a category, so
  that a scan has one outcome.
- `src/inspector.rs`: the seeded request hash (ahash) and the direct-mapped
  verdict cache around the scans.
- `src/reply.rs`: the health-probe route and the body of a blocked answer.
- `src/laws.rs`: properties that hold across calls.
- `app/main.rs`: the HTTP server (tokio, hyper) that calls the library.
