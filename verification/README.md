# agora

The library of a forum: its in-memory store, the statements and decisions of its relational store,
its server-rendered pages, and its text summaries. Everything under `src/` is verified with Verus but
for the few declarations in `src/text.rs` and `src/calendar.rs` that say what the standard library
and the calendar crate do: those are trusted.

- `src/model.rs`, `src/store/`: the domain and the store in memory. `Forum` is the mathematical view
  of a store; every operation is stated as a function from one `Forum` to the next.
- `src/relational/`: the relational store. A command is a function from what the database has
  answered so far to what it does next, so that everything it decides is verified, and only the
  fetching is left to its caller.
- `src/views/`, `src/view_model.rs`: the pages, from typed view models to escaped HTML.
- `src/text.rs`, `src/textsim.rs`, `src/calendar.rs`: text, similarity and summaries, dates.
- `src/rows.rs`, `src/texts.rs`: the vocabulary for tables and lists of texts.
- `src/laws/`: what holds of the library as a whole: the invariant that every operation keeps, what
  one operation leaves for another to read, the orders of lists and pages, and that the relational
  commands end as the store in memory does.
- `app/`: the service around the library: the asynchronous storage trait, the PostgreSQL driver,
  page assets, and the scores that need floating point.
