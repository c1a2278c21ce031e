//! A content cache for documents fetched by a SOAP/WSDL client: a versioned
//! payload codec, a time-based expiry policy, and the decision logic of an
//! in-process table and of a single-table persistent store.
pub mod cache;
pub mod exceptions;
pub mod ns;
pub mod settings;
pub mod xsd;
