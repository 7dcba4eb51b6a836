//! Reusable components: dialogs and the markdown renderer.

pub mod dialog;
pub mod markdown;
