//! Pipeline execution core of a shell whose stages exchange typed rows:
//! schema-checked row streams, the one-shot handshake that hands a stage's
//! result to the next stage, and the ordered sink for user-visible output.

pub mod channel;
pub mod data;
pub mod errors;
pub mod stream;
pub mod table;
pub mod commands;
pub mod history;
pub mod lang;
pub mod schema;
