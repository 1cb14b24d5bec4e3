# torrentfind

Search results of the 1337x torrent index, the JSON-RPC requests that drive a
Deluge Web UI, and the Discord bot that ties the two together, as a library
whose behaviour is stated in Verus contracts and proved.

- `src/models.rs`: torrents, result lists, magnet links; reading the columns of
  a search page; text forms.
- `src/search.rs`: index addresses, what search and torrent pages hold, the
  search query, and the step-by-step lookup of a magnet link.
- `src/deluge.rs`: a Deluge session (endpoint, request ids that wrap at 1024),
  the request bodies, and the scan for a connected host.
- `src/bot.rs`: the bot's settings, commands and buttons.
- `src/pages.rs`: the messages the bot draws.
- `src/downloads.rs`: the torrent picked for download, its folder and the note.
- `src/pretty.rs`: the coloured terminal table of results.
- `src/cli.rs`: what a run of the command line asks for.
- `src/text.rs`: decimal numerals and character/string helpers.
- `src/trusted.rs`: every call into another crate (regex, serde_json,
  colorful, term-table, std parsing and case mapping) with the contract that is
  taken on trust.
- `src/laws.rs`: properties that span several calls.
- `app/`: the Discord bot (serenity, tokio, reqwest, confy) and the command line
  (clap, atty): the network, the terminal and the settings file.
