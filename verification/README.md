# z_osmf

A client model of the z/OSMF REST interface, verified with Verus.

The library in `src/` prepares every request that the client sends (its
method, URL, query parameters, headers and body) and reads the parts of the
answers that need reading: the transaction id and etag headers, the lines of
`getfacl`, `extattr` and `chtag` output, authentication cookies, record ranges,
job identifiers, file sizes and filters. Each of these functions carries a
contract that Verus proves; the laws that tie them together (reading back what
is written, the order of tokens, how the options of a request combine) are
proof functions beside them.

- `src/request.rs`: the request model and JSON bodies as values.
- `src/text.rs`: decimal numbers, trimming, UTF-8 byte offsets.
- `src/auth.rs`, `src/zosmf.rs`: tokens, logging in and out.
- `src/files*`, `src/jobs*`, `src/system_variables*`, `src/variables*`,
  `src/workflows*`, `src/info.rs`: the services of z/OSMF.

`app/` sends the requests with reqwest and reads JSON answers with serde into
the library's types. `tests/` runs the library on the examples of z/OSMF's
documentation.
