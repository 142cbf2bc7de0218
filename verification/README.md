# codex-worker-adapter

The worker entrypoint for one embedded Codex app-server. It leases a home shard from a control
plane, starts the app-server on that shard's home directory, and serves the connection to it over a
WebSocket, for as long as the lease holds.

The library under `src/` is verified with [Verus](https://github.com/verus-lang/verus). It decides
and performs nothing: each part of the worker's life is a machine whose state says what is to be done
next, and which takes what came of it as an event. The program under `app/` drives the machines: it
opens the sockets, sends the requests and runs the app-server.

| Module | What it decides |
| --- | --- |
| `config`, `url`, `net`, `text` | which settings and shard ids are accepted, where the home directory and the listener are |
| `discovery` | how the Pod IP is found, and whether the control plane can reach it |
| `control_plane` | what is asked of the control plane, and what its answers mean |
| `bootstrap` | the start, up to a leased shard with its home directory |
| `monitor` | when a heartbeat is due, and when the lease is lost |
| `app_server`, `rpc` | how the app-server is started, and what is done with each JSON-RPC message |
| `http_server`, `bridge` | health, the one connection at a time, and what passes through it |
| `run` | when the worker is ready, why it shuts down, and in which order |
| `error` | the words in which failures are reported |

Proof functions named `law_..` state what holds across calls, such as that a claimed lease is
released when the start fails, or that the worker is ready exactly while it serves.

## Configuration

| Environment variable | Flag | Description |
| --- | --- | --- |
| `CONTROL_PLANE_URL` | `--control-plane-url` | base URL of the control plane, required |
