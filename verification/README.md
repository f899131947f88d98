# axiom_proxy

The client side of the AxiomIO proxy: a local OpenAI-compatible endpoint that attests the model's
TEE, seals every request field to the attested model key, relays the ciphertext through the Axiom
backend, and opens the response locally.

- `src/` is the library, with its contracts proved: request validation, the NEAR v2 and Phala ACI v2
  encryption protocols, attestation checks (report binding, Intel DCAP verification of the Phala
  gateway's quote against the collateral in its evidence, RTMR3 replay, worker sessions, signed
  receipts), the streaming translation to OpenAI chunks, the exactly-once request audit, the
  bounded request history, and the OpenCode configuration merge.
- `app/` is the program around it: the HTTP server, the relay client, the network side of
  attestation (TLS peer certificate, fetching Intel collateral for NEAR quotes, NVIDIA NRAS),
  files, and the command line (`--headless`, `configure opencode`).
- `tests/` exercises the library on concrete values.
