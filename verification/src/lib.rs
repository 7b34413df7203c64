//! Search across several engines at once: the pages of the engines are read
//! as they arrive, results are pulled out of them chunk by chunk, cleaned,
//! and merged into one stream in which each address is shown once.

pub mod adapter;
pub mod chunking;
pub mod date;
pub mod engines;
pub mod entities;
pub mod entity_table;
pub mod matcher;
pub mod numbers;
pub mod orchestrator;
pub mod patterns;
pub mod percent;
pub mod replace;
pub mod search_result;
pub mod splice;
pub mod static_files;
pub mod text;
pub mod transport;
pub mod url_set;
