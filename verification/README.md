# backend

A PostgreSQL administration backend. The library under `src/` is verified
with Verus; `app/` is the HTTP server and the database access around it.

- `text`: decimal rendering, joining, name lookup.
- `guard`: the reserved and undroppable databases, and the refusal errors.
- `database`, `schema`, `table`, `data`: the SQL each operation sends, the
  guards it applies, and how catalogue rows become listings.
- `qr`: QR code images, through the `qrcode` and `image` crates.
- `reply`: the replies of the user endpoints.
- `laws`: properties of the database operations taken together.

`app/` performs every query. Where a statement depends on its arguments, or
an operation may be refused, it asks the library what to send; the fixed
catalogue queries (database, schema, table and user listings) stand in
`app/` as they are. It turns the rows it reads into the library's plain
values and into JSON.
