# adda

The verified core of a Bengali-language discussion board (threads,
replies, moderation), written in Verus.

- `src/` is the library, verified by Verus:
  - `numerals`: hexadecimal post ids and decimal tags, written and read
    back (`lemma_hex_round_trip`);
  - `text`: characters of strings and `trim`;
  - `formatting`: HTML escaping and sanitizing, the comment markup, and
    the post references a comment makes; the calls into `regex` and
    `sanitize_html` are in `formatting/engine.rs`;
  - `moderation`: passphrase hashing and checking (the calls into
    `argon2` are in `moderation/passwords.rs`), administrator
    credentials, suspensions;
  - `pages`: posts as shown (ids, user tags, timestamps, redaction),
    pagination, the sidebar, and the decisions of each request handler
    as a step function from what has come back to the next action or
    the answer.
- `app/` is the web server (axum, sqlx, tera): it runs the queries,
  renders the templates and performs the actions the library decides.
- `tests/` runs the library on concrete values.
