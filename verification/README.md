# dslite_b4

A DS-Lite B4 client: it brings up an IPv4-in-IPv6 tunnel to an AFTR and tears
it down on shutdown.

- `src/` is the verified library. Every procedure that talks to the host
  (netlink on Linux, libdladm/libipadm on illumos, name lookup, the
  network-change stream) is a state machine there: it names the next request,
  and the reply to it decides the step after. Contracts pin each step down;
  proof functions (`lemma_*`) state what whole runs do, such as "setup
  succeeds exactly when each step succeeds, and stops at the first failure
  with that step's error".
  - `address`, `text`: addresses as integers; decimal rendering of statuses.
  - `config`: the configuration and its defaults.
  - `dns`: resolving the AFTR address.
  - `tunnel`: errors and the shared step shape; `tunnel::linux`,
    `tunnel::illumos`: the platform procedures.
  - `network_changes`: coalescing bursts of change notifications.
  - `backoff`: the delay between discovery attempts.
- `app/` is the program: command line, TOML parsing, and the code that
  performs the library's requests with tokio, rtnetlink and the illumos
  libraries.
- `tests/` exercises the library on concrete values.
