//! What the commands of the application compute before they touch a file or
//! the network.

pub mod export_import;
