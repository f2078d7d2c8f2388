# sargerust

The logic of a client for an MMORPG (Wrath of the Lich King data), each function proved
against its contract.

## Layout

- `src/` — the verified library:
  - `mpq_loader` — which files of a data folder are archives, and the order in which they are
    searched (kinds in load order, versions within a kind);
  - `dbc` — the client database files: which files the table reader can take, and the rows the
    library reads from them;
  - `tables` — rows looked up by their id;
  - `zone_music` — selecting the music of the player's area, picking its sounds by weight, and
    the cooldowns between them;
  - `display_resolver`, `char_sections`, `geosets`, `textures` — resolving a creature's display
    id into its model file, the geosets it shows and the files of its textures, and the names
    of the doodads and map objects that a map tile places;
  - `world_session` — the login handshake with the world server and the packet loop's decisions;
  - `auth_session` — the answer to the world server's challenge: the account name as the server
    expects it, the proof of the session key and the session message;
  - `packet_header` — decrypting world packet headers, and their sizes and opcodes;
  - `movement` — which movement packet the player's client sends;
  - `game_state` — finding maps by name and the folders of their files;
  - `game_time`, `light_bands`, `spline` — the time of day, the light bands of a light
    parameter set, and the steps of a spline walker;
  - `text` — string functions with their specifications;
  - `loader` — the traits of asset loaders.
- `app/` — the program around the library: command line, archives on disk, the connection to
  the world server, logging, and the parts that work on floating point.
- `tests/` — tests of the library on concrete values.
