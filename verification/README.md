# moq_probe

Measures how much a receiver can take from a MoQ relay. One logical probe runs
stages at 50%, 75% and 100% of a target bitrate, each over its full active
duration:

`REQUEST -> START -> START_ACK -> 1-byte padding -> paced padding -> END`

`src/` is the library, verified with Verus:

| module | what it holds |
| --- | --- |
| `protocol` | numbers, messages and errors of the protocol |
| `varint`, `wire`, `stream` | messages as bytes, and reading and writing them piece by piece |
| `rate`, `clock` | bitrates, byte budgets, clock readings |
| `receiver` | what a receiver counts and concludes |
| `sender` | the sender of a stage: handshake, pacing, backpressure |
| `acceptor` | the relay's side: which requests are run and how others are answered |
| `client` | the subscriber's side: logical probes, stage by stage |
| `csv`, `text` | logs and error texts |
| `address` | the address of a relay |
| `buffer` | the `bytes` crate, as far as it is used |

The sender, the acceptor and the client are state machines: each names the next
action and takes the event that answers it. `app/` carries the actions out over
WebTransport.
