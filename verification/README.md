# loap

LOAP ("Lipstick on a pig") serves prebuilt packages for KISS Linux: maintainers
upload build tarballs to an S3 bucket and report them, and the site lists
packages, builds and maintainers and hands out signed download links.

- `src/` is the verified library: formatting (`utils`, `text`), pages and the
  navigation bar (`page`), what the pages decide before rendering (`site`,
  `stats`), the SSH-signature check of maintainers (`auth`), and the API's
  types (`api`) and request flows (`download`, `report`, `upload`).
- `app/` is the server: axum routes, SQLite and S3 calls, HTML rendering with
  hypertext, and serde copies of the library's types.
- `tests/` exercises the library on concrete values.
