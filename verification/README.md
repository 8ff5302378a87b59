# zeroclaw_runtime

Durable goals for an agent runtime: what a goal is, who may command it, when it
runs, pauses, resumes and ends, and what it may spend.

- `src/` is the verified library.
  - `task`, `goal_task`: task rows and their goal extension.
  - `store`: the task tables and the guarded transitions over them, what a
    daemon start does to them, migrations, and the laws of all of these.
  - `recovery`: goals that wait to be continued after a restart.
  - `goal`: `/goal` commands, policy, budgets, visibility and lifecycle.
  - `goal_mode`: one goal per live session: identities, settings, controller,
    host, prompts and the status that is shown.
  - `usd`, `text`, `message`, `payload`, `error`, `clock`: amounts, strings,
    catalogue messages, JSON payloads, failures, and the clock and ids that come
    from outside.
- `app/` is ordinary Rust around it: SQLite, live turns, sessions, the process.
- `tests/` runs the library.

Amounts of money are kept as the bits of an IEEE 754 double, so that comparing
them is arithmetic on integers. Messages are catalogue keys with arguments; the
words are looked up where they are shown.

Whatever needs the outside between two decisions is a step function. It is given
all replies so far and asks for the next one, fails, or has its result.
