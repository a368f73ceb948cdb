# Srotas Desk

An offline billing and inventory desk for a single shop counter. This crate
is its core, written in Verus: every rule the counter applies is a function
with a contract, proved.

## Layout

- `src/money.rs`, `src/text.rs`, `src/time.rs`: rupee amounts in whole paise
  (parsed digit by digit, no floating point), the text helpers every parser
  shares, and moments in time.
- `src/license.rs`: offline license keys (Base64, an Ed25519 signature and a
  small binary payload), device matching and expiry.
- `src/pin.rs`: the counter PIN (Argon2 hashes, validation, the lockout
  policy).
- `src/settings.rs`: the machine's `key=value` settings file, read and
  written.
- `src/repo/`: how a bill is priced and taxed (discount proration, the
  CGST/SGST split), the literal search pattern, and the stored license row.
- `src/ui/`: the screens' state and decisions: forms and their checks, the
  undo/redo history, the catalogue's filtering, ordering and paging, the
  session's state machine (`session::step`), reports' date ranges, and
  keyboard shortcuts.
- `app/`: the program around the library: the SQLite queries (saving bills
  with the library's figures, moving stock), the settings file on disk, the
  crash log, and the start-up sequence.
- `tests/`: the library's tests.

## Laws

Besides each function's contract, the library states and proves properties
that span calls, among them: a typed amount reads back as the amount it was
written from; the lockout starts at the fifth wrong PIN, doubles and is
capped; a bill's discount is allocated to the paisa and its GST split evenly;
undo restores, redo reapplies, and k undos unwind the last k edits of a
run of up to the 200 the history keeps; the settings file reads back as
the settings written, and its last `preload_catalogue` line decides that
switch; a catalogue listing is determined by its filter and order; a
search is literal; a key whose signature does not hold under the key it is
checked with is never accepted.
