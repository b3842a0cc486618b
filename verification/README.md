# wrs32

Safe models of buffers whose size and alignment the caller chooses (the
value or bytes they hold, with the checked layout that their allocation is
to be made with), and the decisions behind a small set of Win32 security
queries (the owner of a process token, the account name of a security
identifier, the security information of a kernel object).

- `src/` is the verified library:
  - `layout`: the rules a buffer's size and alignment must meet
    (`BufLayout`, `check_buf_layout`, `is_power_of_two`);
  - `buf`, `var_buf`, `aligned_buffer`: one value, `count` values, or zeroed
    bytes, each with the checked layout of its buffer; they are stored as
    ordinary Rust values, not in memory of that layout;
  - `win32`: Win32 error codes and their `HRESULT` values, status checks,
    handle values;
  - `token`: the two-call protocol of a token information query;
  - `sid`: security identifiers and their validity, NUL-terminated wide
    strings and their UTF-16 text, and the two-call protocol of an account
    lookup.
- `app/` is the program: it makes the system calls, allocates the raw
  memory of the checked layouts that is handed to them, and follows the
  library's decisions.
- `tests/` runs the library on concrete values.
