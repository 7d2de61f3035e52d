//! Driver core for USB-attached multi-key decks: the model registry, the
//! device enumerator, the input-report decoder and the key-image adapter.
//!
//! Nothing here touches a file: callers read the device tree and the raw
//! device node themselves and hand the library what they read.

pub mod deck;
pub mod device;
pub mod error;
pub mod key_img;
pub mod registry;
pub mod text;
pub mod tree;
