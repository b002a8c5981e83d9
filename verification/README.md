# neo_api_rs

A toolkit for writing Neovim plugins in Rust, with a fuzzy finder built in.

- `src/` is the verified library: the search state and its moves, the task
  queue, result ranking and the search pattern, the recent-directories file,
  previews, file icons, the SQL text the result store runs, the window layout
  of the finder, the option tables handed to the editor, and the names the
  editor's API knows its values by. Each public function states what it
  returns in its contract, and the laws that relate several calls are proof
  functions named `law_*`.
- `app/` is the editor side: the calls into Neovim through mlua, the SQLite
  store, the debug log on disk, and the asynchronous runner and windows of
  the finder, and the table of file icons the library looks icons up in.
  The finder's decisions (layouts, which tasks to queue, what a key or a
  deletion does, how results and tabs are drawn) come from the library;
  sizes given as fractions of the editor are turned into cells there, since
  the library holds no floating-point numbers.
- `tests/` runs the library on concrete values.
