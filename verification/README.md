# codex_teams

The rules behind the `codex team` command line and its dashboard, as a verified library: what is
read from requests and state files, what is decided, and what is shown.

- `src/` is the library. Every function states what it returns, and Verus proves it. Parsing and
  printing JSON, reading timestamps and a few character tables come from other crates and from the
  standard library; the wrappers around them say what is taken from there.
- `tests/` runs the library on concrete values.
- `app/` is the program around it: files, sockets, processes, and the percentages that are computed
  in floating point.

The modules, from the ground up:

| modules | what they hold |
| --- | --- |
| `text`, `split`, `escape`, `number`, `order`, `shell` | texts, their order, escaping and quoting |
| `json`, `time`, `form`, `http` | JSON values, timestamps, forms, requests and responses |
| `model`, `status` | the state of a team and what is said about it |
| `token_usage`, `journal`, `kanban`, `messages`, `timeline`, `template`, `markup`, `page` | the dashboard |
| `route`, `cli`, `team_rules` | what requests, commands and messages lead to |
| `mcp_resource`, `tool_spec` | tools that the model can call |
| `permissions`, `config_lock`, `personality` | rules of the configuration |
