//! Databento Binary Encoding (DBN): fixed-layout market-data records behind a
//! common header, a non-owning view over one record's bytes, and a resumable
//! decoder for byte streams that arrive in arbitrary chunks.
pub mod cli;
pub mod decode;
pub mod encode;
pub mod enums;
pub mod error;
pub mod metadata;
pub mod pretty;
pub mod record;
pub mod record_enum;
pub mod record_ref;
pub mod rtype;
pub mod text;
pub mod wire;
