//! Alias-to-path bookmarks: the store, the terminal dialogs that guard and
//! edit it, and the commands built on both.
//!
//! The library decides and computes; it opens no file and no terminal. A
//! command runs as a series of requests (`run`), a dialog as a series of
//! steps that take a key and queue text (`tty`, `field_edit`), and the store
//! turns into bytes and back (`store`). The program around the library does
//! what is asked and hands back what it got.

pub mod key;
pub mod text;
pub mod editor;
pub mod selector;
pub mod tty;
pub mod field_edit;
pub mod entries;
pub mod codec;
pub mod table;
pub mod store;
pub mod path;
pub mod run;
pub mod cmd;
