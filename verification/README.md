# memtoy

A spaced-repetition notebook. A note comes up for review on the day it is
written and again 1, 3, 7, 14, 30 and 60 days later; the review day starts at
2 a.m. local time.

- `src/` is the library, verified with Verus: calendar dates and their written
  forms (`dates`), the SQL statements of the store and the review schedule
  (`data_management`, `db_checker`, `statement`), the panels of the notebook
  (`calendar`, `record`, `list`, `review`), replies (`replies`) and links found
  in notes (`links`). Dates are handled by `chrono`, links by `regex` and `url`,
  through small trusted wrappers whose contracts are stated in `dates.rs` and
  `links.rs`.
- `app/` is a small command-line front end that runs the statements against
  the SQLite file with `rusqlite` and opens links with `webbrowser`.
- `tests/` holds the tests.
