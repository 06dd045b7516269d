# bgit

One command for most of git: a workflow runner that checks a repository
with rules (secrets, secret files, large files, Git identity, remotes,
repository size), stages, commits and pushes, and helps with SSH and HTTPS
credentials.

## Layout

- `src/` — the library, verified with Verus. The tool's decisions are
  functions with contracts: URL rewriting for the preferred
  authentication, configuration lookup, the rule-run protocol
  (check, fix, verify) and the runner of the rules checked before each
  event (an event with no rules runs; a failing rule stops it), the secret
  and file-name detectors, the pull and push decisions, the SSH agent and
  SSH credential state machines, hook handling and the workflow queue.
  Calls into `regex`, `base64`, `home` and `std::path` go through small
  trusted wrappers whose contracts are documented where they stand.
- `tests/` — the test suite, run against the compiled library.
- `app/` — the `bgit` binary: argument parsing, terminal prompts, files,
  processes and the repository (through `git2`), driving the library's
  decisions. Some short loops stay there, such as the one that runs
  `ssh-add` on each candidate key and remembers the first key added.
