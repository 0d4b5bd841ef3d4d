//! Path queries and typed extraction over an in-memory XML tree, together
//! with plain data records used by service clients.
pub mod errors;
pub mod xml_tree;
pub mod parsing;
pub mod parsing_xml;
pub mod advisor;
pub mod compute;
pub mod refresh_token;
