//! What the board's pages compute: posts as shown, forms, the sidebar's
//! boards, and the decisions of the request handlers.

pub mod dashboard_data;
pub mod forms;
pub mod helper;
pub mod response;
pub mod board_handlers;
pub mod k_handlers;
pub mod mod_handlers;
pub mod submission_handlers;
pub mod confirm;
pub mod fallback_handler;
