# principal

Suspends a Docker container while nobody uses it and starts it again once
packets arrive for it.

- `src/` is the library: the monitor's state machine, the reading of socket
  tables and container listings, lengths of time and the messages, with their
  contracts and the laws that hold of every interval and every run.
- `app/` is the program: options, packet capture, the Docker daemon, timers and
  logging. It performs the monitor's actions and hands back their outcomes.
- `tests/` runs the library.
