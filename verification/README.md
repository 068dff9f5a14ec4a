# gauge-app (verified core)

The decisions behind the Permission operations UI (`/permission`): which history rows a
Show History page returns and how relation changes are worded, session and source gates of
the server functions, form checks, picker sequencing, request labels, routes, and the
Playwright lab host's overrides and fixtures. Every function in `src/` carries a Verus
contract; `app/` holds the process-wide state and the wire formats around them.

- `src/` — the library, verified with Verus.
- `tests/` — executable tests of the library.
- `app/` — host glue: global lab state, seed request JSON, history paging over host rows.
