# ZeroSum

Friend-to-friend encrypted messaging over a relay server that sees ciphertext
only. The library is executable Rust whose behaviour is stated in contracts and
proved with Verus.

## Layout

- `src/protocol` — wire format: messages, framing, padding.
- `src/crypto` — identities, key agreement, the ratchet, safety numbers, and the
  encrypted session store. The primitives come from outside crates; what is
  believed of them stands in `primitives.rs`.
- `src/server` — what the relay does with each message, what it stores, and what
  it hands out.
- `src/client` — commands, contacts, history, files, the terminal interface, the
  network link, and the session that ties them together.
- `src/tor.rs`, `src/text.rs`, `src/textmap.rs`, `src/bytes.rs`, `src/codec.rs`,
  `src/clock.rs` — addresses and directories of Tor, text, a map by name, bytes,
  serialised forms, and the clock.
- `app` — the program: sockets, files, the database, the terminal.
- `tests` — runs of the library on concrete values.

Properties of the library as a whole stand as public proof functions whose names
begin with `law_`, beside the functions that they speak of, in
`src/server/laws.rs` and in `src/client/laws.rs`.

## Running

```bash
zerosum server                      # with an embedded Tor hidden service
zerosum server --no-tor             # local only
zerosum client --server <address>.onion
zerosum client --server 127.0.0.1:18080 --no-tor
zerosum client --verified <user>    # the safety number was compared
zerosum open <file> > <copy>        # a file that was received
```

Files that are received are kept encrypted under `received` in the data
directory. `/verify` shows a safety number. That alone verifies nobody: once the
number has been compared with the other side, `--verified` at the next start
marks the contact as verified. A screen that was locked with `/lock` takes
nothing but the password, and Ctrl+C to quit.

| Variable | Default | Description |
|---|---|---|
| `ZEROSUM_SERVER_ADDR` | — | Server address (onion or host:port) |
| `ZEROSUM_SOCKS_ADDR` | `127.0.0.1:9050` | SOCKS proxy for Tor |
| `ZEROSUM_NO_TOR` | unset | `1`, `true` or `yes` disables Tor on the server |
| `ZEROSUM_PORT` | `18080` | Server port |
| `ZEROSUM_DATA_DIR` | platform default | Data directory |
| `RUST_LOG` | `info` | Log level |
