# cloudflare_access_webhook_redirect

A reverse proxy that exposes chosen paths of a Cloudflare Access protected service, with the
service token injected. A request whose path matches a configured pattern, with a method that
pattern allows, is forwarded with `CF-Access-Client-Id` and `CF-Access-Client-Secret` attached;
everything else is answered `404` and no request is made.

## Layout

- `src/` is the library, verified with Verus. It holds every decision the proxy takes:
  - `config/`: the methods a path may be proxied with and how they are parsed, the severity
    levels of the telemetry block, and the listener's settings;
  - `data/`: the allow list compiled into one anchored regex set, whether a request is
    admitted, and the headers a forwarded request carries;
  - `converter.rs`: which inbound headers travel upstream, and which status codes are relayed;
  - `routes/redirect.rs`: what each method is forwarded as, and how the trace-continuation
    header lands on the forwarded request;
  - `telemetry.rs`: how a Sentry sink classifies a record, whether a DSN is usable, and which
    middleware a listener mounts;
  - `foreign.rs` declares the outside types the library carries without looking inside them.
- `app/` is the binary around it: loading the layered configuration, installing the
  subscriber and the Sentry client, the listener and its handler, and the shutdown signal.
- `tests/` runs the library against the real outside crates.

Each call into an outside crate goes through a small trusted wrapper whose doc comment says
what its contract claims; everything built on those contracts is proved.
