# pastebin

A self-hosted paste bin: text pastes with an optional title, author,
language and expiry, uploaded images and attachments, a list of all pastes,
and editing and deleting.

- `src/` is the library, verified with Verus. It holds the rules of the
  service: paste ids, expiry, the upload form and its size limits, which
  content types may be uploaded, HTML escaping, how rows of the database
  become pastes and attachments, and what each page answers.
  - `text.rs`: characters, trimming, HTML and quote escaping.
  - `time.rs`: instants in UTC, read and written through chrono.
  - `expiry.rs`: expiry options and the expired check.
  - `ids.rs`: paste ids and the names uploads are stored under.
  - `content_types.rs`: allowed upload types, served types and dispositions.
  - `store.rs`: pastes, attachments and their database rows.
  - `upload.rs`: the new-paste form, filled field by field.
  - `pages.rs`: the decisions and page contents of each request.
  - `config.rs`: settings, their defaults, and where they are looked for.
- `app/` is the server around it: actix-web handlers, SQLite through sqlx,
  minijinja templates, the configuration file and the file system.
- `tests/` runs the library on concrete values.
