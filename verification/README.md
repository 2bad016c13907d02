# disk_patrol

A disk health monitor that reads every block device it is given from start
to end over a patrol period, records the sectors whose reads fail, and sends
email alerts once enough errors have gathered.

- `src/` is the library, verified with Verus: the configuration (settings
  file, command-line overrides, defaults, read-size units), the device
  states (identity, position, errors, alerts, duplicate detection), the
  schedule (resume position, read interval, jitter), the read buffer, and
  the logging and alert decisions. `src/laws.rs` states the properties that
  hold across operations.
- `tests/` runs the library on concrete values.
- `app/` is the program around it: argument parsing, TOML and JSON files,
  device probing and reading, logging backends, progress bars, email, and
  the asynchronous patrol tasks.
