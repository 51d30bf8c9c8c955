# hearth_web

The server-rendered web UI of a Hearth instance, as a Verus library: it draws the pages, reads the
forms, and decides what every request is answered. Nothing in it talks to a network or a store.

## Layout

- `src/text.rs`, `src/html.rs`, `src/json.rs` – characters, HTML templates with holes, JSON.
- `src/model.rs` – identifiers, instants, accounts, and the rows that the pages show.
- `src/listing.rs`, `src/sorting.rs` – paging, filters and the order of the member directory.
- `src/cookies.rs`, `src/reply.rs`, `src/gate.rs` – cookies, replies, and who may do what.
- `src/forms.rs`, `src/display.rs`, `src/toast.rs`, `src/audit.rs` – form fields, shown values,
  toasts, and entries of the audit log.
- `src/views/` – the pages and fragments. Each view has a spec function that gives its HTML.
- `src/flows/` – the handlers. A handler that needs the store is a function from the answers so far
  to the next step: a question, or the end with its reply (`flows/step.rs`). A question that
  changes something says for whom; where the change is logged, its `entry` is what goes into the
  audit log with it.
- `tests/` – scenarios on concrete values.
- `app/` – the axum router. It asks the store what a flow wants to know and sends its replies; the
  store itself is behind the trait in `app/backend.rs`.

Public proof functions whose names start with `law_` state what holds of the library as a whole:
that text is inert in HTML, that pages partition the rows, that no session opens without its
factors, that a refused recovery does not tell why, and so on.
