//! Data as it is handed to and from the database layer.

pub mod forms;
