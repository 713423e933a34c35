//! What a caller submits, and what is made of it.

pub mod models_data_entry;
