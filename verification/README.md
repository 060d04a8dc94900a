# warpgate

The verified core of a bastion-host gateway, written in Verus.

- `src/sso.rs`: SSO provider configuration (labels, client ids and secrets,
  Apple client-secret JWTs, issuer URLs, scopes, request parameters).
- `src/tls.rs`: TLS client set-up for target connections and the
  host-name-tolerant certificate check.
- `src/mysql.rs`: the MySQL packet stream (framing, receive steps).
- `src/reconnect.rs`: which WebSocket errors mean a lost connection.
- `src/protocols.rs`: errors of target tests.
- `src/commands.rs`: command-line decisions and output.

`app/` holds what does I/O or needs outside traits and derives: serde forms
of the configuration, rustls verifier impls, async network loops.
