# user_info

User info of OpenID Connect providers, verified with Verus: requests for claims about an end user,
and the verification of the claims that come back.

- `src/request.rs`: user info requests, the HTTP request that each stands for, and what becomes of
  the response.
- `src/claims.rs`, `src/types.rs`, `src/urls.rs`: claims about the end user and the values in them.
- `src/jwt.rs`, `src/verification.rs`: signed claims and what a client expects of them.
- `src/headers.rs`: header fields, kept in the header map of the `http` crate.
- `src/errors.rs`: errors.
- `src/laws.rs`: what holds of all of this together.
- `app/`: the library over the HTTP types of the `oauth2` crate, with claims in JSON.

The library does no I/O. A caller hands in the HTTP client, the parsers of JSON and of tokens, and
the provider's keys; the contracts say what each of them is asked, and what follows from its answer.
