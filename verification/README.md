# ezsockets

A WebSocket server whose decisions are verified with [Verus](https://github.com/verus-lang/verus).

The library (`src/`) decides, and the program around it (`app/`) performs: it waits, sends,
receives and calls handlers, on `tokio`.

| module        | what it decides                                                            |
|---------------|----------------------------------------------------------------------------|
| `session`     | the life of one connection: pings and pongs, handlers, timeout, end        |
| `server`      | what is done for connections, disconnections and calls                     |
| `acceptor`    | the loop that accepts connections                                          |
| `socket`      | messages and close frames                                                  |
| `tungstenite` | the counterparts of messages and close frames in the crate `tungstenite`   |
| `request`     | the copy of the request that opens a connection                            |
| `clock`       | the timestamps that pings carry, and the latency that pongs show           |
| `config`      | the settings of a server                                                   |

`session::model` holds the mathematical model of a session, and `session::laws` what holds over
whole runs of it: that only pongs keep a session alive, that handlers get every message once and
in order, that the queue is emptied before a failed session is closed, that a session is reported
as ended once, after its disconnection was handled.

What is believed without proof is said where it stands, in the comments of the functions marked
`external_body` and of the `assume_specification` items: a few functions of `chrono` (`clock`),
of `http` (`request`) and of `std::time::Duration` (`config`).
