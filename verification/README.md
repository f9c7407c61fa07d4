# saved_accounts

The login accounts that are saved in a home directory: which of them are on
file, which one is active, how much of their rate limits is used, and what is
shown of all that in a terminal. The library is verified with Verus.

## Layout

- `src/` is the library. `store` holds the operations on the accounts file
  (`entry`), `order` the order in which accounts are kept and listed, and
  `identity` which account credentials (`auth`) belong to. `round` goes over all
  accounts for their statuses (`status`), `fetch` is the course of one fetch, with
  its requests in `usage` and `refresh`, and `limits` turns what the backend
  reports into rate limits. `render` and `popup` put it all into words. `laws`
  states what holds of the saved accounts as a whole.
- `tests/` runs the library on concrete values.
- `app/` is ordinary Rust around it: the file on disk, HTTP, JSON, and the
  terminal.

## How to read a contract

Each type that carries text has a model, which is its `deep_view`, with text as a
sequence of characters. Contracts speak of models. An operation that changes the
accounts file is stated as a function from the model before to the model after,
such as `saved_under`, `switched_to` and `removed_from`, and the laws are proved
of these functions.

What is taken from other crates stands behind a few functions whose contracts
are believed: the digest of `sha2`, the header map and the status texts of
`http`, the line breaking of `textwrap`, and the date arithmetic of `chrono`.
Each says in its comment what it claims.
