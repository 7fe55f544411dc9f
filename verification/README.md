# sporo

The logic of a keypad seed-phrase tool: the BIP-39 English wordlist, the
arithmetic that completes, checks and combines mnemonics, and the state
machines behind each screen — word entry, coin flips, the menu, and the
generate and XOR workflows — each with its contract proved by Verus.

- `src/` is the verified library. `bip39` holds the mnemonic arithmetic,
  `bip39_wordlist`, `wordlist_data` and `wordlist_prefixes` the list and what
  is proved of it (its order, and that no two words share four letters),
  `bip39_properties` the laws that relate those functions; the screens'
  state machines are `word_entry`, `coin_entry`, `flips`, `menu`, `generate`,
  `xor` and `app`, and `keymap`, `keypad`, `legend` and `hints` tie keys and
  legends to actions. `bounded` is where the fixed-capacity strings and vectors
  of `heapless` are declared to Verus, and `sha2` is called from `bip39`.
- `tests/` runs the library with the real outside crates linked.
- `app/` is a host program: keys come from standard input, and the screens
  are drawn with `embedded-graphics` into a framebuffer printed to the
  terminal.
