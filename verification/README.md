# prism-provider-meta

Meta-family adapters for Prism (Instagram single-image feed posts, Facebook
Page text posts, WhatsApp individual text messages), written in Verus.

- `src/` is the verified library: bounded values (`values`), character
  classes and decimal text (`text`), Graph API base and endpoint URLs
  (`graph_url`), Graph error classification and response interpretation
  (`transport_error`), provider-neutral delivery results (`delivery`), and per
  provider the capability snapshot, error mapping, validation and the
  publish/send decision steps (`facebook`, `instagram`, `whatsapp`).
- `app/` holds what runs around it: the reqwest transports, serde decoding of
  response bodies, the async resolver/transport boundaries and the adapter
  loops that perform the actions the decision steps ask for.
- `tests/` exercises the library on concrete values.
