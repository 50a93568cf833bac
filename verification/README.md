# solana-bench-tps-rate

A benchmark that sends transfer transactions to a Solana cluster at a target
rate and reports how many were sent and confirmed during a measurement window.

- `src/` is the library, written in Verus. Every decision of a run is here with
  its contract: the sequence of transfers, the schedule, the funding of the
  accounts, the division of work among threads, the sender threads, the
  measurement window, the confirmation count, the settings, and the accounting of
  batches in flight. Public proof functions named `law_...` state what holds
  across several calls.
- `src/solana.rs`, `src/parallel.rs` and `src/number.rs` hold what is taken on
  trust: the types and calls of the Solana SDK, and one call each of its command
  line helpers, of Rayon and of the standard library.
- `app/` is the program: the command line, the connection to the cluster, threads,
  clocks, random intervals and output. It performs what the library's state
  machines ask for.
- `tests/` runs the library against the real SDK.

## How the pieces fit

A run generates and funds key pairs (`funding`), splits them and the rate among
sender threads (`workload`), and starts one sender per thread (`sender`). Each
sender takes slots from a rate limiter (`rate_limiter`) and transactions from a
producer (`producer`, `transaction`, `pairing`). Meanwhile the run's progress opens and closes
the measurement window (`progress`), and the confirmation tracker follows the
cluster's transaction count (`confirmation`). The report (`stats`) sets the two
side by side.
