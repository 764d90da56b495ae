# tp2

A text adventure engine whose rules are verified with Verus.

- `src/` — the verified library: the story model and its validation
  (`scenario`), the player state (`state`), entering and showing scenes
  (`engine`), the commands (`commands`), reading a command from a line
  (`parser`), one turn of play (`game`), character-level text handling
  (`text`), the errors (`errors`), and properties of play proved over all
  states (`properties`).
- `app/` — the program: loads `story.yaml` with serde, reads lines from
  standard input and prints what the library reports.
- `tests/` — tests of the library on concrete stories.
