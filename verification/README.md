# telegrand

The decisions behind two parts of a GTK Telegram client, proved with Verus:
the proxy settings window (its port validator, the proxy that saving adds,
which page it shows and what that asks for, the rows that list the proxies)
and the chat sidebar (which chats and users it lists while searching and
while not, their order, and what selecting an entry leads to).

- `src/` is the verified library: `proxy_handle_dialog`, `proxy_row`,
  `proxy_window`, `sidebar`, with the plain Telegram values they read in
  `telegram` and text comparison in `text`.
- `tests/` runs the library on concrete values.
- `app/` holds the GTK widgets, which show the library's state, send the
  TDLib requests it asks for and hand it what comes back.
