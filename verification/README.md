# codewhale_providers

The provider side of Codewhale as a verified library: the registry of model
providers, the precedence of their credentials, and the catalog of the models
that they offer.

The library holds decisions only. It never reads the environment, the disk or the
network: callers hand it plain values, and where a decision needs another look at
the outside world (the next place where a key may be, the next step of a catalog
refresh) it says which one and waits for the answer.

## Layout

- `src/` is the library. Every function carries a contract, and the modules end
  with the laws that relate them. `src/lake_laws.rs` and `src/route_laws.rs` hold
  the laws of the catalog as a whole.
- `tests/` runs the library on concrete values.
- `app/` is the process around it: the shared lake, the process environment, the
  `models` command, and the serializable copies of library types.

## Reading the contracts

Data types that hold text have a view made of sequences and maps, and contracts
speak of it. The plain records of facts that callers hand in (`CredentialFacts`,
`UpdateFacts`, `UrlOrigin`, `RouteEndpoint`) have none: contracts read their fields.
A catalog is a map from `(provider, wire model id)` to a row; what callers
see is its values in key order. The layers are, from the bottom up: bundled rows,
Models.dev rows, the signed cloud layer, and provider-owned rosters.
`merge::merged_catalog` says which row of which layer is shown,
`route_catalog::route_models` what a concrete route lists, and
`runtime::runtime_routes` what it can execute.

`credential_resolve::credential_resolution` is the precedence of credentials, from
the top down, and `refresh::update_receipt` what a refresh comes to.
