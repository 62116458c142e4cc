# nethsm-sdk-rs

Client-side data model and request helpers for the NetHSM REST API, written
in Verus.

- `src/apis`: form-urlencoding of query values, `deepObject` query
  parameters, the HTTP basic `Authorization` header, response contents and the
  client error with its message.
- `src/models`: the enumerations of the API (with their wire names) and the
  request types.
- `app`: reading HTTP responses with `ureq`, JSON forms of the model types,
  and the standard `Display`/`Error` traits of the client error.
