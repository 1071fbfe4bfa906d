# asya

The logic of a desktop assistant daemon, written in Verus with its
contracts proved.

- `src/` is the verified library: configuration groups and how partial
  configurations merge and take their defaults, plugin option
  normalisation, plugin discovery on disk listings, .NET entry-point
  names, media-player status and the replies about it, `.desktop` entry
  search and parsing, the plan for spawning an application, use-case
  dispatch, disk lookups and small text utilities.
- `app/` is the program around it: reading files and the environment,
  running shell commands, Lua and serde, logging, and turning plugin
  options and .NET entry-point names into the C strings a plugin host
  takes. The plugin runtime, the event system and the server are not part
  of this crate.
- `tests/` holds scenario tests run against the compiled library.
