# Account registration and sign-in

The decisions of an authentication service, as a Verus library, and the service
around them.

- `src/register.rs` and `src/form.rs`: registering an account with a username, an
  e-mail address and a password.
- `src/webauthn.rs`: registering passkeys and signing in with them.
  `src/relying_party.rs` holds the calls into `webauthn_rp`, `src/model.rs` the
  stored records, `src/display_name.rs` a check on the names that are passed on.
- `src/callback.rs`: the return of a user from an upstream OAuth 2.0 provider.
  `src/template.rs` renders the subject of the user, from templates whose code
  `src/tokens.rs` reads.
- `src/id.rs`, `src/time.rs`, `src/text.rs`: identifiers, points in time, texts.
- `app/`: what asks, stores and answers: the storage, the homeserver, HTTP.

Each decision is a function from what is known to what is to be done next. What it
returns is stated in its `ensures`; what holds across functions is stated in public
proof functions. Functions marked `external_body` make the calls into other crates.
