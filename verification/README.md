# revenant

A proxy between Simutronics game servers (GemStone IV, DragonRealms) and
their frontends (Wrayth, Wizard, Avalon). Verus proves the parsing and the
decisions against their contracts; what the outside crates compute (the XML
tokens of the data files, regular-expression matches, ciphers, digests,
version order) is taken as their documentation states it.

- `src/` is the verified library: the game's XML stream parser and the
  character state it feeds, the GSL conversion for older frontends, the
  game-object registry, the `info`/`skills`/`experience` readers, the eAccess
  login conversation, saved accounts with encrypted passwords (and the
  checks made before a password is changed), the encryption
  settings, spell definitions and ranks, object classification, the room map
  lookups, the hook chain, the script commands, version strings and digests,
  and how the frontend is launched. Calls into outside crates (quick-xml,
  regex, aes-gcm, base64, pbkdf2, sha2, sha1, md-5, semver, dirs) go through
  small trusted wrappers whose contracts say what the crates document.
- `app/` is the program around it: command-line options, the files in the
  configuration folder, the network relay, spawning the frontend, and the
  route search over the map, whose travel costs are fractional.
- `tests/` runs the library on concrete inputs.
