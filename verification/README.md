# nyx

The verified core of NYX, a local-first desktop computer agent, written in
Verus.

`src/` is the library. Its own functions carry contracts that Verus proves;
the few calls into outside crates (JSON parsing and member lookup, fresh
UUIDs, the clock, `String::push`) sit behind small trusted wrappers whose
contracts are stated, not proved, and are documented where they stand:

- `text`: substring search, replacement, ASCII case folding, trimming, line
  splitting and lexicographic order over `Seq<char>`, with the lemmas behind
  secret redaction.
- `path`: paths as component sequences (`join`, `parent`, `file_name`,
  `starts_with`).
- `security`: the workspace scope (a resolved path always lies under the
  root), the permission policy, secret redaction and the shell deny-list.
- `task`: task, plan-step and activity-event values.
- `tools`, `tools_fs`, `host`, `integrations`: tool descriptors, the tool
  registry (name order, later registrations replace earlier ones), input
  checks, line search, directory-listing order, application launch plans.
- `agent`: the run of one request as a state machine.
- `planner`, `scheduler`, `connectors`, `voice`: planner configuration,
  the chat request and answer checking, recurring jobs (nanosecond
  instants), the connector allow-list, voice sidecar settings and reply
  reading.
- `json`: the JSON values carried through, the JSON parse and the members
  read from parsed values.

`app/` is the runtime around it: filesystem, processes, HTTP, the async tool
interface, serialisable copies of the library's types and the desktop
command handlers. `tests/` exercises the library on concrete values.
