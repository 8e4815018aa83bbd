# seed_flow

The secret-phase seed ceremony: physical and machine entropy bookkeeping,
the entropy-composition panel, source-record assembly, the post-secret
screens (mnemonic display, hidden re-entry, passphrase, verification,
custom derivation paths) and the decisions of the ceremony driver.

- `src/` is the library, verified with Verus. Every screen is computed as
  plain lines (or line operations), every blocking prompt as a per-key
  step function, and the driver as one function from (state, context,
  screen answer) to (event, scrubs, next context, ending). Laws that span
  several functions are public proof functions next to the code they
  speak of; the rest are in the functions' own contracts.
- `tests/` exercises the library on concrete values.
- `app/` is the platform side: framebuffer and console drawing, blocking
  keyboard reads, the cryptographic pipeline, the protocol state machine
  and power-off. The edition supplies the console (`TextOutput`, which
  word-wraps prose paragraphs to its own width) and the setup, generate,
  verify, finish and export screens (`CeremonyScreens`); app/ implements
  neither.

Secret-holding buffers (the physical staging, the history strip, the
machine-source records, the passphrase buffers) are zeroed by explicit
`scrub` calls whose contracts state the zeroing; the driver decides where
each runs. They are not zeroed when dropped: the library has no `Drop`
impls, so a buffer that goes out of scope without a `scrub` keeps its
bytes until the memory is reused.
