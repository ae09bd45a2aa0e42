# pointercrate

The rules behind editing the demonlist, written in Verus and proved.

- `src/position.rs`: moving a demon on the list; the move keeps positions
  `1..=n` free of holes and duplicates, keeps the other demons' order, and a
  move back restores the list.
- `src/patch.rs`: demon patches and the fixed order of their steps; records
  that fall below a changed requirement.
- `src/apply.rs`: one patch step applied to a demon, with the database
  queries it needs; what a whole patch does.
- `src/run.rs`: a patch applied step by step, each step fed the input looked
  up just before it, tied to the whole-patch law.
- `src/demon.rs`: demons, players and records, and the setters of a demon.
- `src/pages.rs`: the records tab, the list sections of the dropdowns.
- `app/`: the database queries (sqlx), request parsing (serde) and HTML
  templates (maud) around the library.
