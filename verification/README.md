# todoly

A terminal task organiser with a verified core.

- `src/` is the verified library: tasks and their storage format
  (`task`), priorities (`priority`), the organiser's state with search and
  navigation (`app`), the keyboard state machine (`keys`), outcomes of
  background work (`events`), the sub-task generator (`ai`), release checks
  (`update`), screen texts (`display`), themes (`theme`), pop-up placement
  (`layout`), string helpers (`text`) and the properties that span several
  operations (`laws`).
- `app/` is the terminal program: files, the terminal, key events, threads
  and drawing. It performs the commands that the library's steps return.
- `tests/` runs the library on concrete values.
