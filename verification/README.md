# node_metrics

A node agent that samples the resource use of the running containers once a
second and reports it to its log or to an InfluxDB server.

- `src/` is the verified library: the settings (log level, enabled modules,
  reporter kind, InfluxDB URL), the memory figures read from the engine's
  statistics, the per-container metrics with CPU deltas against the previous
  round (kept in two `lru` caches), and the points written to InfluxDB.
- `app/` is the program around it: environment, logging, signals, the Docker
  API, the InfluxDB writes and the floating-point shares.
- `tests/` exercises the library on concrete values.
