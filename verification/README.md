# deanery

The verified core of a dean's-office client for a PostgreSQL database of
specializations, groups, students, subjects, the academic plan, marks and
login accounts.

- `src/` — the library, verified with Verus:
  - `text.rs`: decimal numerals, integer parsing as `str::parse` does it,
    splitting at a separator;
  - `authorization.rs`: users, how they are shown, password hashing and the
    login decision;
  - `tables/`: for every table, the SQL text of its queries, the cells shown
    for its rows, and what each window does on each event;
  - `to_excel.rs`: worksheet exports as lists of cell writes.
- `app/` — the program: windows (Slint), the database connection
  (`postgres`), file dialogs and workbook files. The connection string is
  read from `DEANERY_CONNECTION`.
- `tests/` — tests of the library on concrete values.
