# socios_peix

Membership management for the loyalty club of a small hotel: members and
their interests, user accounts, coupons, and the e-mails sent to members
(birthday greetings, mailings by interest, coupons), with an Excel export
of the member list.

The library in `src/` is verified with Verus. Its contracts state what
each function returns: the texts and notifications the pages show, the
filters and pagination of the lists, the checks a form or a mailing makes
before anything is sent, the state machines of the dialogs and of a mailing
that runs member by member, the member export, and password hashing.

- `src/` — the verified library. Calls into `argon2`, `lettre`,
  `rust_xlsxwriter` and `base64` go through small trusted wrappers whose
  contracts say what those crates' sources and documentation show.
- `tests/` — tests of the library on concrete values.
- `app/` — the command around the library: the SQLite database (`sqlx`),
  the SMTP client (`lettre`), and a `main` that runs a mailing, tests the
  mail server or exports the members.
