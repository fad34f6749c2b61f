# vegar

The logic of an id-photo web service, written in Verus and proved
against its contracts.

- `src/` is the verified library:
  - `nickname`: random Chinese nicknames filtered by gender and length;
  - `media`: image type from the file signature, `data:` URLs of image
    bytes and their decoding;
  - `hash`: Argon2 password hashing and checking;
  - `token`: signed login tokens;
  - `error`: the service's errors, the HTTP status and the brief text
    each is answered with;
  - `settings`: the settings and their defaults;
  - `storage`: object keys, content types and public URLs of uploads;
  - `dsl`: a builder of query conditions, with date ranges, and what a
    condition means for a row;
  - `dtos`: requests, results and records of the endpoints;
  - `endpoints`: the decisions of the photo endpoints (form fields,
    reply checks, photo updates, list filters, login gate, service URLs);
  - `records`: photo and user rows, photo updates and the photo list
    query;
  - `flow`, `id_flow`, `login_flow`: the order of the steps of the
    image-service, cached-picture (upload, id photo, background, download)
    and mini-app login endpoints, one step at a
    time (the application makes the outside calls in between);
  - `routes`: the route table;
  - `validation`: the checks a user record passes before it is saved;
  - `text`, `foreign`: shared helpers and carried outside types.
- `app/main.rs` reads the settings, image and uploaded files and the
  clock, and makes fresh ids.
- `tests/` runs the library on concrete values.
