# postdamn

A user and permission service over PostgreSQL, and a small image classifier.

- `src/` is the verified library: the pagination and search parameters and the
  plan of the user listing query (`params`, `users`), the validation of request
  bodies (`extract`, `users`), the answer to every failure as a problem document
  (`error`, `problem`), the records and their text forms (`models`, `service`,
  `ids`, `schema`), and where the classifier keeps its weights (`weights`).
- `app/` is the program around it: the HTTP server (axum, diesel-async, bb8,
  utoipa), the conversions between the library's types and those of the outside
  crates, and the classifier itself (tch), which runs when the program is
  started under the name `catify`.
- `tests/` runs the library on concrete values.
