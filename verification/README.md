# token_metadata

A token-metadata program for SPL Token and Token-2022 mints, written in Verus.

- `src/` is the verified library: the 493-byte metadata record and its encoding
  (`state`), the Token-2022 `MetadataPointer` reader (`state::mint_extensions`), instruction
  decoding (`instruction`), account and content checks (`checks`), the metadata address
  (`pda`), the instruction handlers (`processor`) and dispatch (`entrypoint`). Each handler's
  contract is a specification function saying exactly which accounts it produces or which
  error it returns; `laws` proves properties that span handlers (immutability freezes a
  record, only the update authority changes it, a creator alone flips its own verification,
  reads give back what creation and update wrote, closing conserves lamports).
- `app/` is the runtime shell: the entrypoint, conversion between runtime accounts and the
  library's plain account values, the token programs' mint readers and the system program's
  `CreateAccount` call.
- `tests/` runs the instructions against an in-memory ledger.
