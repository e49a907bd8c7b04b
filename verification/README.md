# interactive_worktree

The interactive `new` command of a git worktree helper: it asks for a branch
name, a starting point, what to do once the worktree exists and whether to
skip copying files, then runs `git gtr new ...` and, when an AI tool was
named, `git gtr ai ...`.

- `src/` is the verified library (Verus):
  - `request.rs`: the request and the exact `gtr` argument lists it leads to;
  - `prompt.rs`: the questions, their wording, the options offered, and how a
    picked option is read;
  - `wizard.rs`: the command as a state machine (answer in, next action out),
    with the proof that a whole session of answers asks the right questions
    and runs exactly the right commands.
- `app/` is the terminal front end: it puts the questions with `inquire`,
  runs `git gtr`, and feeds the results back to the state machine.
- `tests/` exercises the library on concrete sessions.
