# vanilla_backend

The verified core of a small chat backend, and the programs around it.

- `src/` is the library. Verus proves every function of it against its contract, but for the calls
  into outside crates that are listed at the end.
  - `orm`: SQL statements, put together from typed builders, one module per table
  - `auth`: signed tokens
  - `gateway`: the life of a socket, how a client identifies itself, how a user changes its status
  - `models`, `json`, `error`: what clients are shown
  - `config`, `middleware`: how the service is set up, and how requests are limited
  - `tui`: the terminal dashboard
  - `text`, `string_map`: texts, numbers, and maps with texts for keys
- `app/` is ordinary Rust around the library: it talks to the database, to Redis, to sockets and
  to the terminal. `tui` as its first argument starts the dashboard; without it the backend is
  started.
- `tests/` run the library.

What the gateway does over several steps is written as state machines. The library takes a state
and what has happened, and gives the next state and what is to be done; `app/` does it and reports
back.

## What is believed without proof

Where the library calls an outside crate, it states what it relies on, and Verus believes it:

- `auth/encoding.rs`: `hex_encode` (`hex`), `hmac_code` (`hmac` over `sha2`), `base64_encode` and
  `base64_decode` (`base64`), `random_bytes` (`rand`) and `utf8_text` (`String::from_utf8`)
- `gateway/cookie.rs`: `percent_decode` (`urlencoding`)
- `orm/jsonb.rs`: `from_value_string`, `from_value_integer` and `from_value_bool` (`serde_json`)

The same holds of what is stated of `str::trim`, `str::to_lowercase` and `str::to_uppercase` in
`text/search.rs`, of `String::push` in `text/chars.rs` and of `String::pop` in `tui/dashboard.rs`.
The errors of `tokio_postgres`, `serde_json`, `anyhow` and `redis` are carried through without
looking into them.
