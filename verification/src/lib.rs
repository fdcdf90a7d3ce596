//! Detection of legacy cryptography in captured network traffic and in
//! X.509 certificates, with the decisions and the report text proved
//! against their specifications.

pub mod clock;
pub mod detectors;
pub mod output;
pub mod pem;
pub mod scanner;
pub mod schema;
pub mod text;
