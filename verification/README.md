# mihoyo_widget

Verified core of a Honkai: Star Rail desktop widget.

- `src/` is the library, written in Verus: the DS2 request signature
  (`ds`), request preparation and response checking for the game-record
  API (`client`, `hsr_client`), lenient reading of loosely typed JSON fields
  (`json`), the data conversions of challenge seasons, periodic activities and
  Simulated Universe archives (`challenge`, `periodic_act`, `rogue_archive`),
  the notification rules (`notify`), the cache's freshness decisions
  (`cache`), and the text rendering they share (`text`).
- `app/` is ordinary Rust around it: serde copies of the data types, the HTTP
  transport, the typed key-value cache and notification delivery.
- `tests/` exercises the library on concrete values.
