# loopr

The decision core of a daemon that lets agents work on plans. Plans fall into
specs, specs into phases, phases into work items; ticks integrate what comes out.
Clients send requests, and the core decides what each request makes of the
records, what it is answered, and what other clients are told.

- `src/` is the core, verified with Verus. It performs no input or output.
  - `protocol`, `params`, `routes`: requests, answers, events, and the methods
    that requests can name.
  - `table`, `records`, `stores`, `status`: the records and the stages they pass
    through.
  - `steps`: what has to be written before a request is answered.
  - `plan`, `specs`, `phases`, `hierarchy`: the hierarchy.
  - `work`, `work_moves`, `work_laws`, `graph`: work items and their dependencies.
  - `tick`, `tools`, `worktree`, `system`, `config`: the other requests.
  - `scheduler`, `recovery`: which loops run next, and what becomes of loops that
    a crash interrupted.
  - `lifecycle`: how a daemon starts, how there is only one, and how it ends.
  - `text`, `words`, `numbers`, `paths`: strings.
- `tests/` runs the core on concrete requests.
- `app/` is the daemon round the core: sockets, files, processes, and the JSON
  form of records.

The rules that say which moves between stages are allowed, and what the
validation gate finds, are handed to the core with each request. So is everything
that the record store, the disk or the clock has to say.
