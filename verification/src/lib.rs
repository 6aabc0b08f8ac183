//! Generator of synthetic task records for seeding test fixtures and demo
//! datasets: each call fabricates one task with a random status, a short
//! lorem name, timestamps placed around a recent anchor, a palette index
//! stored in string form, and an owning user.

pub mod record;
mod sources;
pub mod task;
pub mod user;
pub mod words;
