# perekladach

The verified core of a small translation-management web service (users,
projects, chapters and page images behind bearer-token authentication).

- `src/` is the library, with its contracts and proofs:
  - `slug.rs`: slugs, with the proof that the piece-by-piece definition equals
    the character-by-character one;
  - `language_tag.rs`: language tags, parsed by `language_tags`, and the
    parser's reasons for a refusal;
  - `auth.rs`: password rules, Argon2id hashing and verification, and the
    Base64 authentication tokens;
  - `database/`: usernames, users, tokens, and the classification of failed
    database operations;
  - `storage.rs`: where page images are stored;
  - `routes.rs`: the status and text every request is answered with.
- `app/` is the service around it: serde and sqlx copies of the types, the
  PostgreSQL queries, file uploads, the actix-web handlers and server.
- `tests/` exercises the library on concrete values.
