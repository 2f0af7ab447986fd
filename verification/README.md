# encrustant

A chess engine whose core is written in Verus: the board, making and
unmaking moves, legal move generation, perft, evaluation, search, move
ordering, position notation and the text of the Universal Chess Interface,
each with a contract that Verus proves.

- `src/` the verified library. The rules of chess are stated once, over a
  model of the board (`rules.rs`), and the move generator, the search and the
  move ordering are proved against them.
- `tests/` tests of the library on concrete positions.
- `app/` the programs around it: the UCI loop and the benchmark, the tuner
  of the piece square tables (floating point), the labelling of data sets,
  and the profile-guided build.

Run the engine as `encrustant`, or `encrustant bench`, `encrustant tune
<dataset>`, `encrustant relabel --dataset <file> --output <file>`,
`encrustant pgo`.

Move generation tries every move number (start square, target square and
flag) against the rules model in `rules.rs` and keeps the legal ones. This
is slower than generating moves from bit boards, but it lets the generator be
proved to give exactly the legal moves, in a fixed order, without a proof
about bit tricks. The magic numbers and offsets of `slider_keys.rs` are the
engine's keys for sliding piece lookups; they are kept, with their lookup
functions, for a generator built on bit boards, which no function uses yet.
