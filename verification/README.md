# Stratum V1 proxy

A proxy for Stratum V1, the Bitcoin mining protocol. It accepts connections of
mining clients, shows what passes to hooks, and forwards it to an upstream server
and back. Everything is forwarded unmodified, except for commands to which a hook
gives new parameters.

The library under `src/` holds what the proxy decides and is verified with Verus:

| module | what it holds |
|---|---|
| `json`, `backend` | JSON values; the calls into serde_json and what is believed of them |
| `text` | white space, decimal numbers, lines |
| `message` | messages, commands and responses, and how JSON is read as one |
| `hook` | directions, the `Hook` trait, how a row of hooks acts on a message, how it is shown |
| `line` | what a received line says |
| `forward`, `forward_laws`, `stream_laws` | one direction of a session, step by step, and what holds over many steps and over a whole stream |
| `session` | one client: connecting upstream, forwarding both ways, closing |
| `proxy` | the proxy server: starting, accepting, stopping |
| `client`, `server`, `store` | stubs of a client and a server, and what a server keeps |
| `config` | addresses and their defaults |

The program under `app/` has the sockets, the tasks and the console. It does what
the library says is next and tells the library how it went.

## Use

```bash
stratumv1-proxy-rs --listen 0.0.0.0:3333 --upstream pool.example.com:3333
```

| argument | short | meaning | default |
|---|---|---|---|
| `--listen` | `-l` | address and port to listen on | `0.0.0.0:3333` |
| `--upstream` | `-u` | upstream Stratum V1 server | `127.0.0.1:3334` |
