# s3proxy

An S3-compatible gateway, meant to run as a Cloudflare worker, that serves
bucket listings from a PostgREST (Supabase) database and objects from an
`object_store` store.

- `src/` is the verified library: how database rows become S3 buckets, which
  error answers each failure, the access rules applied before a request reaches
  a backend, how bucket and key name a stored object, and how the PostgREST
  client and its bucket query are configured.
- `app/` is the worker itself: the `fetch` entry point, reading the worker
  environment, sending the PostgREST and object-store requests, and the `s3s`
  trait implementations that hand what came back to the library.
- `tests/` runs the library on concrete inputs.
