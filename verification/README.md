# rsnapp

The verified core of a small GraphQL service for articles and users, backed
by MongoDB and signing users in through Microsoft's identity platform.

- `src/` is the library, verified with Verus: object ids and their hex text
  (through `bson`), base64 (through `base64`), the errors the service
  answers, the documents and updates it sends to the database, the requests
  it sends to the identity platform, and the sign-in as a state machine.
- `app/` is the server: actix-web, async-graphql, the MongoDB driver and the
  HTTP client. It performs the I/O that the library describes and hands the
  outcomes back to it.
- `tests/` runs the library on concrete values.
