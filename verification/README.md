# marreq

The decision logic of the Marreq requirements-management web front end,
written in Verus and proved against its contracts.

## Layout

- `src/` — the verified library.
  - `text`, `selection`, `ordering`: string building, order-keeping
    filtering and stable sorting, with the spec functions the page contracts
    are stated over.
  - `external`: the calls into std, `regex` and `urlencoding`, with the
    contracts the library trusts.
  - `models`: the plain records the pages read.
  - `route_info` and `routes::html::*`: one module per area of the site —
    route tables, redirect targets, page contexts, pagination, traceability
    matrices, membership and ownership rules, import pages.
- `tests/` — ordinary Rust tests run against the compiled library.
- `app/` — helpers of the Rocket side: responders, redirects, template
  contexts, and some file, process and clock work. The page handlers, which
  need the application's storage and services, are not part of this crate.

Laws that relate several functions are public proof functions named
`lemma_*`, next to the functions they speak of.
