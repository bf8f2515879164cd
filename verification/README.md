# pgauthz

Request validation, configuration and listing logic of a Zanzibar-style
authorization extension for PostgreSQL, written in Verus with its contracts
proved.

- `src/` — the verified library:
  - `validation` — argument checks of the SQL entry points, with their exact messages;
  - `guc` — the `authz.*` settings and the values the extension reads from them;
  - `revision` — revision quantization and cache-layer configuration;
  - `listing`, `ordering` — the sorted, paginated candidate lists of list operations;
  - `model` — the authorization model, the relations a permission refers to,
    validation of relationship writes, and the rows of the computed policy;
  - `policy` — checks and the id of a policy definition being written;
  - `relationship` — relationships and the `type:id` notation of test matrices;
  - `requests` — small request helpers (policy listing window, changelog limit, expand error replies);
  - `expand` — the text permission tree an expand request replies with;
  - `errors` — the SQLSTATE and message of each authorization error;
  - `log_format` — how tracing events are rendered into server log lines;
  - `matrix` — state of the matrix test runner;
  - `text` — character classes and string helpers the rest is stated over;
  - `laws` — properties that span several operations.
- `tests/` — tests run against the compiled library.
- `app/` — the extension around the library: SQL functions, settings
  registration, caches, telemetry, the tracing bridge and SPI storage.
