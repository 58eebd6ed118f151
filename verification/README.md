# webserver

What a paste server decides when visitors log in and look at pastes, verified with Verus.

- `src/login.rs`, `src/two_factor.rs`: the login form, the password and the second factor.
- `src/pastes.rs`: who may see, delete and edit a paste, and what its pages show.
- `src/previews.rs`, `src/markup.rs`: previews of Markdown, CSV and SVG files. Markdown is
  rendered by comrak and sanitized by ammonia; text in attributes is escaped by tera.
- `src/file_map.rs`: maps from files to text, kept by hashbrown.
- `src/text.rs`, `src/reply.rs`: numbers and suffixes; replies.
- `src/*_laws.rs`: what holds of the handlers and of the previews, whatever happens.

Sessions, the database, Redis and the disk stay outside of `src/`. A handler that needs them is
a step function: it names the next thing to do and takes what came of it. `app/` carries the
steps out.
