//! Sporo: the BIP-39 arithmetic, the wordlist, and the keypad state machines of
//! a seed-phrase tool.

pub mod bip39_wordlist;
pub mod wordlist_data;
pub mod wordlist_prefixes;
pub mod wordlist_text;
pub mod letter_set;
pub mod needle;
pub mod bounded;
pub mod bip39;
pub mod bip39_properties;
pub mod bip39_entropy;
pub mod flips;
pub mod word_entry;
pub mod coin_entry;
pub mod action;
pub mod keymap;
pub mod keypad;
pub mod menu;
pub mod legend;
pub mod hints;
pub mod view;
pub mod workflow;
pub mod generate;
pub mod xor;
pub mod app;
