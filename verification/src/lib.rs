//! Host-side bookkeeping for the RFVP engine's versioned host ABI.
pub mod abi;
pub mod audio;
pub mod frame;
pub mod handle;
pub mod host_state;
pub mod host_types;
pub mod input;
pub mod platform;
pub mod recording;
pub mod renderer;
pub mod resources;
pub mod runtime;
pub mod text_translation;
pub mod unicode;

pub use handle::{Handle, HandleRegistry};
pub use text_translation::{TextTranslationController, TextTranslationRequest};
