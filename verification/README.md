# signatures_bench

The verified core of a benchmark of zero-knowledge verifiable credentials on
mobile devices: a credential with a name and a birth date is issued, presented
(disclosing the name, proving the birth date before 2001-01-01, and proving
possession of a device key), and verified.

- `src/requests.rs`: the credential, the proof requirements, the device-binding
  parameters and the issuer identifiers that each step hands to the credential
  engine, with the law that prover and verifier agree on them.
- `src/model.rs`: the key pair, device binding and preparation records; the
  device key's coordinates in standard base64.
- `src/codec.rs`: base64 as RFC 4648 defines it, the two engines of the
  `base64` crate that are used, and the proof that decoding inverts encoding.
- `src/frame.rs`, `src/compact.rs`: the compact binary form of a presentation
  whose size the benchmark reports, and the proof that it is self-delimiting.
- `app/lib.rs`: the entry points that call the credential engine, its random
  source and its runtime.
