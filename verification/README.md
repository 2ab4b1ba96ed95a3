# cuckoo

The rules of the Cuckoo restaurant back office, written in Verus and proved
against their specifications.

- `src/` is the verified library: staff roles, PINs and permissions; order,
  kitchen-ticket and cancellation decisions; self-service ordering; marketing
  codes and campaign coupons; recipe nesting and cycle checks; stock and
  purchasing guards; ESC/POS and TSPL print formats; print templates and their
  HTML preview; printer routing and settings; report CSV; sync and update URLs;
  text encoders (Base64, CSV, decimal).
- `tests/` runs the library on concrete values.
- `app/` is the host around it: the SQLite database, files, LAN printer
  delivery and JSON conversion.

Calls into outside crates (`sha2`, `argon2`, `rand_core`) and a few std
functions sit behind small trusted wrappers whose contracts are documented where
they are declared.
