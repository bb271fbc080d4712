# swiyu_issuer

The verified core of a credential issuer for the Swiss eID infrastructure
(SWIYU): the management API's request authentication and user-account logic,
and the decisions of the web back end (BFF) that fronts it. The functions in
`src/` carry contracts that Verus proves, except the small wrappers marked
`#[verifier::external_body]` that make the calls into outside crates: Verus
believes their contracts, and each one's doc comment says what it claims. The
two converters between the JSON model and `serde_json::Value` (`from_value`,
`to_value`) carry no contract.

## Layout

- `src/json.rs`, `src/text.rs`, `src/encoding.rs` — a JSON document model,
  string operations specified over `Seq<char>`, and the encodings, digests and
  signatures of the outside crates, each behind a small trusted wrapper.
- `src/domain/` — identifiers, user accounts, invitations and invitation codes.
- `src/api_management/` — bearer-token validation (JWT parsing, claim checks,
  the realm key-set cache), tenant and first-party request contexts, and the
  invitation, linking and user-account rules.
- `src/persistence/` — keyset pagination and the reading of update results.
- `src/cli/` — the `tenant_id` claim-mapper provisioning plan.
- `src/bff/` — the back end's configuration, login flow decisions, pending
  logins, server-side session, token caches and grants, and management-API
  requests.
- `src/test_support/` — test credentials signed with a fixed key, and sample
  accounts.
- `tests/` — tests of the library on concrete values.
- `app/` — the back end program: the HTTP server, sessions, and the calls to the
  realm and the management API, all driven by the library's decisions; beside
  it, the management API's token validator with its key-set fetches and the
  claim-mapper provisioning calls, which the program does not start.
