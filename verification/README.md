# runtime_configs

The configuration of a parachain runtime, verified with Verus.

- `src/calls.rs`: the calls that are told apart, and which of them are transfers.
- `src/filters.rs`: the filter that every call has to pass, and the kinds of
  proxies with the calls that each may make.
- `src/limits.rs`: the weight and length limits of a block, and the shares of a
  block that are set aside. They are put together with the builder of
  `frame_system`, which `src/dispatch.rs` describes.
- `src/deposits.rs`, `src/periods.rs`, `src/bounds.rs`, `src/governance.rs`,
  `src/identities.rs`, `src/permissions.rs`: the parameters of the pallets.
- `src/weight.rs`, `src/ratio.rs`: the arithmetic that the limits need.
- `app/`: the same as FRAME traits, for the `Config` impls of a runtime.

Functions marked `external_body` call the Substrate crates; the comment above
each says what is relied on. Public proof functions whose names start with
`law_` state what holds across functions.

The Substrate crates are built without their `std` features. On a 64-bit host
that takes the feature `disable_target_static_assertions` of
`sp-runtime-interface`, which is why that crate is named in `Cargo.toml`.
