# pinecone-sdk

A client library for the Pinecone vector database whose logic is verified with Verus.

- `src/` is the verified library: how a client's settings are resolved from arguments, the
  environment and defaults; the User-Agent and the normal form of a source tag; the headers
  every request carries; the requests of the control plane, the data plane and the inference
  API; how error responses are classified and displayed; the decisions taken while waiting for
  a new index to become ready; and the endpoint of an index host.
- `app/` performs the I/O around it: it reads the environment, sends the HTTP requests with
  `reqwest`, (de)serializes JSON with `serde`, and runs the wait for an index with `tokio`.
- `tests/` exercises the library on concrete values.

Calls into outside crates (`regex`, `serde_json`, `reqwest`'s re-export of `http`) and into a
few std functions stand behind small trusted wrappers whose contracts are documented where they
are declared.
