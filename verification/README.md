# mgs_cli

The verified core of `mgs-cli`, a tool that registers game-host runners with a
control plane, joins hosts to a tailscale mesh and starts a runner container
beside a tailscale sidecar in Docker.

- `src/` — the library, verified with Verus: image naming (`image`), the
  Docker objects of a runner and their settings (`runner::containers`), the
  sidecar health rules (`runner::health`), the start-up order as a state
  machine with its laws (`runner::start`), platform rules (`platform`),
  control-plane requests (`grpc`) and the endpoint they are sent to (`endpoint`), the configuration path (`config`), the
  `tailscale` command line (`tailscale`) and exact string helpers (`text`, `fmt`).
- `app/` — the executable: argument parsing, Docker, gRPC, file and process
  I/O, driving the library's decisions.
- `tests/` — tests of the library on concrete values.
