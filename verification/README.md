# gateway

The request-handling logic of the Nauron gateway, the authenticated HTTP
entry point in front of Nauron's processing services, written in Verus: each
function carries a `requires`/`ensures` contract that Verus proves.

- `src/` is the verified library: input validation (cursors, page sizes,
  form fields, filters), access rules for contexts, the classification and
  unpacking of uploads, the decisions of job launching, retrying and
  resubmission, pipeline summaries, download headers, CORS origins, and the
  assembly of every response. The multi-step flows (retrying a job, reusing
  an earlier MIR result, taking in an uploaded file, submitting an ingest or
  condition job) are step functions from the current phase and the stores'
  answer to the next phase and action, so the caller performs the I/O and
  the library decides. Calls into outside crates (`zip`, `sha2`, `hex`,
  `uuid`, `url`) stand behind small trusted wrappers whose contracts are
  documented where they are declared; `serde_json::Value` is carried as an
  opaque declared type.
- `app/` is ordinary Rust around it: S3 storage, the CORS and tracing
  layers, reading multipart uploads, timing health checks, download headers,
  the loops that drive the step functions, and JSON forms of responses.
- `tests/` runs the library against concrete cases.
