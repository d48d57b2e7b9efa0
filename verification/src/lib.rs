//! Verified core of an event-driven social network: the records that the web
//! services publish, what the consumer makes of them, the read-side shaping of
//! query results, and the page models of the web front end.

pub mod ids;
pub mod events;
pub mod payload;
pub mod status;
pub mod produce;
pub mod ingest;
pub mod topics;
pub mod pipeline;
pub mod queries;
pub mod game;
pub mod clock;
pub mod answers;
pub mod pages;
pub mod tables;
