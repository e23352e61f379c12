# trans2quik

Bindings for `Trans2QUIK.dll`, the QUIK terminal's interface for importing
transactions and placing orders, built around a library verified with Verus.

- `src/` is the verified library: the result, mode, side and status codes,
  the windows-1251 C strings and buffers the terminal hands over, the
  `yyyymmdd` / `hhmmss` date and time numbers, and the step functions that
  decide, field by field, what each order, trade and transaction reply
  callback turns into. Prices are left to a type parameter.
- `app/` loads the DLL, owns the raw pointers, the callback registry and the
  channels, and runs the step functions of `src/` inside the C callbacks.
- `tests/` exercises the library on concrete values.
