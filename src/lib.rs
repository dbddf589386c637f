//! Session and model coordination for a desktop client of a local
//! language-model server: the generation-parameter model, the model
//! catalog with its lazily fetched metadata, the speech-output edge
//! detector and the session directory.

pub mod catalog;
pub mod modified;
pub mod sessions;
pub mod settings;
pub mod short_name;
