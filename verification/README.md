# nani_switch

A tray utility for Windows that keeps several Nani logins and switches between
them. This crate is its verified core, written in Verus:

- `crypto`: the encryption Nani applies to the access token in its database
  (AES-256-CTR under a key derived from the user-data folder, base64);
  decrypting what was encrypted gives the token back.
- `account_map`, `store`: the saved accounts in save order; recognising the
  login Nani holds, saving it under a free name, removing an account, and
  finding the token to switch to, with the laws that tie these together.
- `snapshot`: the login read from the values of Nani's key-value store.
- `nani`: the steps of a switch, and reading `tasklist` output.
- `tray`, `menu`: the tray application's state, usage refreshes, the menu as
  data, and what each action sets off.
- `text`, `dialog`, `logger`, `paths`, `startup`, `settings`: numerals,
  message-box text, log lines, file locations, the start-up check, settings.

`app/` holds the Windows program around it: the tray icon, the message loop,
SQLite, HTTP, the registry, files and processes.
