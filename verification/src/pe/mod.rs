//! The PE decoder: headers, section table, address resolution, import
//! table, and the artifact that collects them.

pub mod error;
pub mod headers;
pub mod sections;
pub mod rva;
pub mod imports;
pub mod loader;
pub mod laws;
