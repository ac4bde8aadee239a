//! The data transformations behind the service clients: index documents,
//! message assembly, free-slot search, request planning. The HTTP round
//! trips and JSON (de)serialisation are done by the caller.

pub mod appscript;
pub mod calendar;
pub mod chat;
pub mod classroom;
pub mod contacts;
pub mod docs;
pub mod drive;
pub mod gmail;
pub mod groups;
pub mod keep;
pub mod sheets;
pub mod slides;
pub mod tasks;
