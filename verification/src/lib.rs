//! Settings resolution and provider request/response handling for a popup translator.

pub mod text;

pub mod settings;
pub mod json;
pub mod translator;
