# qingjian

The part of an input method that keeps committed text, picks the latest sentence
out of it, and has the translation of that sentence read out. Written in Verus:
every function of the library has a contract, and the promises that span several
functions are proved as public `law_*` proof functions beside them.

- `src/` is the verified library. `text`, `sentence` and `history` deal with
  running text; `key` with key combinations; `frame` with what the candidate
  window shows; `router` with the course of a reading; `tts` and `voice` with the
  steps of the speech thread.
- `app/` is the Windows side: SAPI, reserved keys, threads and the clock. It
  performs what the library decides and hands back how that went.
- `tests/` runs the library.

The library trusts six constants of the `windows` crate, `char::is_whitespace`
and the type `std::sync::mpsc::Sender`; each says so where it is declared.
