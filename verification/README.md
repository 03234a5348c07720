# modem

Control logic for a cellular modem (SIM7600 and its kin) that carries PPP over a serial line,
written in Rust and verified with Verus.

The library does no input or output. A `ModemRunner` says what is to be done next (an `Action`:
write these bytes, read a line, start the PPP driver), is told how that went (an `Event`), and says
what is to be done then. Whoever embeds it carries out the actions, keeps the shared status behind a
lock and hands in what the network stack announces.

| module      | what it holds                                                        |
|-------------|----------------------------------------------------------------------|
| `config`    | how a modem is to be brought online, and which configurations it takes |
| `error`     | what can go wrong, and which failures are worth another try          |
| `at`        | the grammar of AT commands and replies                               |
| `command`   | the exchange of one AT command                                       |
| `transport` | lines and raw data out of one serial stream                          |
| `reader`, `clock` | what the transport reads from and waits by, each with its record |
| `status`    | the shared status, and how events of the network stack change it     |
| `handle`    | what the user of a modem sees of it                                  |
| `action`    | actions and events                                                   |
| `session`   | the course of a run, as specification functions                      |
| `runner`    | the runner itself, proved to take that course                        |
| `laws`      | what holds of every run, whatever its surroundings answer            |
| `stream`    | what becomes of the bytes that arrive, over a run with its transport |
| `text`, `time` | texts, spans and moments                                          |

`app/` is the plumbing around the library: the lock, the clock, the loop that carries out the
actions, and the serial port of an ESP32.

## What is proved, and what it rests on

Every function that the library offers has a contract over mathematical models of its arguments. The
laws state what the contracts amount to: however lines and data are taken in turn, no byte of the
stream is lost or reordered; the PPP stack is handed the stream behind the answer to the call; the
steps of a session come in order, retries are bounded and each waits its delay, only passing errors
are retried, a stop is heeded, the status shows how a run ended, and no accepted configuration puts
more than one line into a command.

Taken on trust are `String::from_utf8_lossy` and the span between two readings of the clock of `std`,
each by a name for its result, and that a `TimedRead` does as its contract says. The address
information of `embedded-svc` is carried through unread.
