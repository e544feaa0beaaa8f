# nexus

The verified core of the NEXUS desktop voice assistant, written in Verus.

- `src/` — the library. Each public function carries a contract that Verus
  proves: what the assistant does and says for each intent
  (`command_executor`), the order in which an app name is resolved
  (`resolve`, a state machine driven by the caller), the app-name tables
  (`app_names`, `sorted_names`), query encoding (`urlencoding`), the
  configuration files (`config`, `json`), desktop entries and Start-menu
  listings (`exec_line`, `start_apps`), running processes (`processes`),
  startup decisions (`launch`), the sidebar (`sidebar`), window attributes
  (`dyn_windows`), system probes (`platform`), barge-in (`playback`) and the
  meeting status (`meeting`).
- `tests/` — tests run against the compiled library with the real
  `serde_json` and `sysinfo`.
- `app/` — plain Rust around the library: the frontend's JSON shapes, the
  operating-system commands behind each plan, and the data files.
