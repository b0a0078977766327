# sandbox_driver_protocol

The plugin protocol of a sandbox driver, with its logic verified by Verus.

A host talks to a plugin process over newline-delimited JSON-RPC on the
plugin's stdin and stdout. Every byte stream (command output and input,
terminals, logs, file contents) rides a connection of its own to a private
Unix socket that the host listens on. Every queue, cache and in-flight
operation is bounded, and stops travel on a reserve that other traffic cannot
use up.

## Layout

`src/` is the library. It holds no I/O: it takes what happened as a value,
and says what to do next.

| Module | What it holds |
| --- | --- |
| `driver` | the driver's values that the protocol reads, and its errors |
| `text`, `table`, `registry` | texts, maps under texts, and bounded registries |
| `limits`, `diagnostics` | the budgets of a connection, and what they report |
| `wire`, `methods` | messages, error crossing, method names and parameters |
| `frame`, `channel` | frames of a data channel, and who may open one |
| `control` | lines in, and the queue of messages out |
| `dispatch`, `request`, `server` | what a plugin does for each request |
| `transfer` | what the frames of each kind of byte stream mean |
| `client`, `operation` | calls, events, stops and cleanups on the host |
| `provider`, `sandbox`, `services` | a served plugin and what it is asked for |
| `discovery`, `supervisor` | finding, verifying, launching and replacing it |

`app/` runs the library over tokio: sockets, pipes, processes, timers, and
the JSON of each value. `tests/` runs the library on concrete values.

## What is trusted

The contracts of the calls into `serde_json`, `base64`, `rand`, `sha2` and
`tokio`, of two functions of `std::time::Duration` and of std's quoting of a
string are believed, not proved. Each stands on a small item whose comment says what it claims.
