# image_api

An image-hosting web service whose logic is verified with Verus.

- `src/` is the verified library: database identifiers (`object_id`), the
  JSON text of reply bodies (`json`, `reply`), access-token claims and
  authentication errors (`middleware::auth`), user and image records with
  password hashing (`models`), and the decisions behind every route
  (`routes::{file, image, user}`). Uploads and profile-picture updates are
  step functions from a state and an event to the next state and the action
  to perform.
- `app/` is the HTTP server: axum handlers, MongoDB and GridFS access, and
  serialisable copies of the library's records. Each handler performs the
  actions the library chooses and reports what happened back to it.
- `tests/` exercises the library, including an upload / fetch / delete
  scenario run against an in-memory store.
