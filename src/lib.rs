//! A terminal task-list viewer and editor: the task store, the key translator,
//! the update engine and the layout composer, each with its contract.

pub mod types;
pub mod store;
pub mod codec;
pub mod model;
pub mod layout;
