//! Location telemetry of a bus fleet: the report a vehicle sends, the row
//! that stands for it in a table, and the two tables a store keeps.

pub mod error;
pub mod memory;
pub mod record;
pub mod schema;
pub mod store;
pub mod timestamp;
