# nerd-watch

`nerd-watch` is a small Docker container watchdog. It polls existing containers, starts those
that have stopped, restarts those that stay unhealthy, waits longer and longer between attempts,
and forgets the attempts once a container has been stable for a while.

What it decides is a library, verified with Verus; `app/` performs the I/O around it.

- `src/time.rs`: spans and points in time, and the monotonic clock.
- `src/docker.rs`: what Docker reports of a container, and the condition that it describes.
- `src/state.rs`: what is kept of a container from poll to poll: backoff, attempts, stability.
- `src/maintenance.rs`: marker files that keep a container from being restarted for a time.
- `src/poll.rs`: one poll as a state machine, from what happened to what is to be done next.
- `src/notice.rs`: what there is to tell the operator.
- `src/laws.rs`: what holds of the watchdog as a whole, over any history of polls.
- `app/main.rs`: arguments, the Docker connection, marker files, logging, signals.

The library trusts two readings of the monotonic clock and one of the calendar, of which it
claims next to nothing, and chrono's reading and writing of a time as text, which it takes to
depend on the text and on the time alone.
