# fast-sql-term

A terminal for SQLite databases: type SQL, or a command that starts with a dot (`.help` lists
them). `.ui` starts a navigator over the tables.

- `src/` is the library, verified with Verus: the commands and the session (`meta`, `db`,
  `repl`), what the database answers and how it is reported (`rows`, `report`, `failure`,
  `find`, `csv`), the navigator (`ui`, `pane`), and the texts they are made of (`text`,
  `number`, `quote`, `order`, `pattern`). The proof functions whose names start with `law_`
  state what holds of the whole.
- `app/` is the program around it: the terminal, the database connection and the screen.
- `tests/` runs the library.
