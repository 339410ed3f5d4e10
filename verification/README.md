# blockcommander

A terminal tool that creates, configures, starts and stops Minecraft servers,
with the logic it decides by verified in Verus.

- `src/` is the verified library:
  - `config`: the settings, server descriptions and the server list; the
    lowest free game and RCON ports.
  - `servers`: a new server's description, adding, finding and deleting
    servers, changing ports, the listing line and the RCON address.
  - `text`: lines of a text file, decimal numerals, prefixes, trimming.
  - `properties`: the first-start rewrite of `server.properties` and marking
    a server description as started.
  - `launch`: whether first-start setup is due and how a server is launched.
  - `creation`: the steps of creating a server, as a state machine.
  - `dashboard`: the live dashboard's decisions, as a state machine.
  - `manifest`: finding a version in Mojang's version list.
- `app/` is the program around it: the command line, files, downloads,
  processes, RCON and the terminal dashboard.
- `tests/` runs the library on concrete cases.
