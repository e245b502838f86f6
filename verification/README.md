# floopfloop

Client for the FloopFloop API, in two parts.

* `src/` is the verified library. It holds the error taxonomy and its wire
  codes, the request paths of every resource (with percent-encoding), the
  reading of responses (the `data` envelope, the error envelope, refine
  outcomes, library listing shapes), the client-side checks of uploads, and
  the status stream as a state machine (`stream::StreamMachine`: deadline,
  polls, de-duplication, terminal states, pauses), with laws over whole
  runs of it. Calls into `serde_json`, `bytes`,
  `httpdate` and a few std functions sit behind small trusted wrappers
  whose contracts name what those functions return.
* `app/` is the async HTTP client built on `reqwest`: `Client`,
  `ClientBuilder`, the resource accessors, the serde shapes of the wire
  format, the error type with `Display` and `std::error::Error`, and the
  loop that performs what the stream machine asks for.
