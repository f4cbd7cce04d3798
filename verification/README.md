# quartz

A desktop front end for the Geode command-line tool, written as a verified library and a
thin program around it.

- `src/` is the library, verified with Verus. Each screen is a state machine: `update`
  takes a message, changes the state as its contract says, and returns an effect naming the
  outside work to do. It also holds the text logic: removing terminal escape sequences
  (`ansi`), reading the profile listing (`profiles`), the saved tool path (`setup`), and
  the question-and-answer session with `geode new` (`geode_new`).
- `app/` is the program: the iced window, file and process I/O, the pseudo-terminal and the
  file dialogs. It performs the effects and hands the results back as messages.
- `tests/` exercise the library on concrete values.
