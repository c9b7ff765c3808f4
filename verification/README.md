# rosc_broker

The operator-facing decision logic of the ROSC broker, written in Verus with
its contracts proved.

- `src/` is the verified library. Control requests are read and routed
  (`http`, `request`, `routes`, `response`); a proxy status snapshot is turned
  into signals, a report, overviews and the operator views built on them
  (`status`, `policy`, `report`, `views`, `history`, `incident_digest`,
  `trace`, `handoff`, `casebook`, `board`, `context`, `mission`, `details`,
  `dashboard`, `focus`, `lens`, `brief`, `dossier`, `records`); launch
  profiles, startup and reload decisions and the command line's lines live in
  `launch`, `lifecycle`, `control`, `config_change` and `console`. Properties
  that span functions are proved in `laws`.
- `tests/` runs the library on concrete values.
- `app/` is the control service around the library: the TCP listener, the
  connection loop, the control-plane trait that a running proxy implements,
  and the JSON bodies of the answers.
