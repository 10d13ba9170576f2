# scanopy (verified server core)

The decision logic of the Scanopy server, written in Verus and proved against
its contracts:

- `version`: daemon release floors, announced sunsets and the lifecycle verdict
  (Current / Outdated / Deprecated / Unsupported / Unknown) of a daemon version.
- `digest`: the per-session discovery digest — entity freshness, scan coverage,
  host cards and VLAN lines.
- `mapping`, `snmp`, `payload`, `kinds`, `fields`, `dispatch`: credential
  types, their form fields and validation, the payloads sent to daemons, and the
  per-session credential mappings.
- `daemons`, `polling`, `sessions`: registration, provisioning, work and
  retry gates, cancellation delivery, inactivity, the server-side poll of one
  daemon as a state machine, and discovery-session bookkeeping.
- `net`, `reach`: address classes behind the SSRF guard and the reachability test.
- `install`, `queries`, `dependencies`: install-command settings, list queries,
  and dependency members.
- `laws`: properties that span several functions.

`app/` holds the I/O around the library (files, DNS, TCP, retries, driving a
poll). `tests/` exercises the library on concrete values.
