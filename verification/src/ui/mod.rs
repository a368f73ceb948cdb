//! The screens' state and the decisions they make, apart from drawing:
//! the forms, the item picker, and the undo/redo history of typed text.
pub mod activation;
pub mod bills;
pub mod catalogue;
pub mod common;
pub mod items;
pub mod login;
pub mod paging;
pub mod register;
pub mod reports;
pub mod sale;
pub mod session;
pub mod settings;
pub mod shortcuts;
pub mod history;
