//! Verified core of a small PostgreSQL administration backend: the SQL text
//! that each operation sends, the guards that keep system databases out of
//! reach, the filtering of catalogue rows, the replies of the user endpoints
//! and the pipeline that turns text into a QR code image.
pub mod text;
pub mod guard;
pub mod database;
pub mod schema;
pub mod table;
pub mod data;
pub mod qr;
pub mod reply;
pub mod laws;
pub mod sql_laws;
