//! Data access over a key-value store for users, groups, contacts and devices.
//!
//! Every accessor addresses one store key, built from a fixed prefix and a
//! numeric client identifier (`keys`), and stands for exactly one store
//! command (`command`). The accessors of each entity kind live in `users`,
//! `groups` and `device`; each returns the command it issues.
//!
//! `command::step` states what each command does to the store and what the
//! store answers. `memstore::MemStore` executes commands exactly so, and
//! `request` spells a command as the byte strings a server is sent. `laws`
//! states what holds across several commands.

pub mod keys;
pub mod assoc;
pub mod command;
pub mod request;
pub mod memstore;
pub mod laws;
pub mod users;
pub mod groups;
pub mod device;
mod collections;
