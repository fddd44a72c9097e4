# neutron_test_tube

Test environments for Neutron chains. The chain itself runs in-process
behind a C interface; this crate holds the logic around it, with its
contracts and proofs:

- `coin`, `order`: coins sorted by denomination in `String` byte order, a
  stable sort with its laws (sorted, a permutation, stable, idempotent).
- `raw_result`: replies of the chain (base64 of a tag byte and content) read
  into results and errors.
- `runner`: the steps of creating accounts (the sorted coin list as JSON, the
  signing key read back), block time arithmetic, payload encoding.
- `message`: messages that contracts send, packed for a transaction.
- `fee`: the fee plans of a transaction and the SDK's denomination check.
- `signing`: account keys kept with their secret, and the signed transaction
  that `cosmrs` builds for messages, fee, sequence and account number.
- `reply`: the chain's replies to a simulation and to a finalized block, and
  the result that answers the transaction sent.
- `codec`: the calls into `base64`, `serde_json`, `cosmrs`, `prost` and std
  that the logic makes, with the contracts that the proofs rely on; standard
  base64 and its decoding, proved to read back what it encodes.

`app/` holds the C interface, the accounts (whose fee settings carry floats),
the `Runner` trait and the application types that call into the library.
