# timeseries

The storage backend of the timeseries database, over [SlateDB](https://slatedb.io).

`src/` is a library verified with Verus. It holds the decisions of the backend:
how operations become one atomic write batch, what SlateDB's answers and errors
mean to a caller, how a scan collects its records, and in which order a storage
is put together. It does no I/O. `src/outside.rs` lists what is taken on trust
from the `bytes`, `slatedb` and `uuid` crates and from `std`; `src/laws.rs`
states what holds of the library as a whole.

`app/` does the I/O: it opens databases, sends the batches, and hands the answers
back to the library. `tests/` run the library against SlateDB in memory.
