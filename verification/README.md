# mistserver_rs

A client library for the HTTP API of the Mist media server, written in Verus.

- `src/` is the verified library: the commands of the API and their names, the
  stream configuration and its builder with the stream-name rules, the reading of
  delete-source statuses (`"<code> <message>"`), the login flow with its challenge
  answer (`md5hex(md5hex(password) + challenge)`), the request URL that carries a
  command, and the reading of API errors and stream lists.
- `app/` sends the commands over HTTP with `reqwest`, holds the JSON forms of the
  library's types (serde), and the client, controllers and transport around them.
- `tests/` runs the library on concrete values.
