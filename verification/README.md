# tgwsproxy (verified core)

The start-up logic of a local MTProto proxy front-end, verified with Verus.

- `src/text.rs` decimal text of ports, reading a port back, whitespace trimming
- `src/hexcode.rs` hex text of bytes (through the `hex` crate)
- `src/secret.rs` proxy secrets: validation, generation, resolution
- `src/links.rs` `tg://` and `https://t.me/` links, listen address
- `src/config.rs` `ProxyConfig`, its defaults, and the start-up plan
- `src/form.rs` the settings form: port field, configuration, links
- `app/` the command-line front-end (argument parsing, runtime, listener)
