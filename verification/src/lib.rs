//! Page navigation for a single-surface mobile application.
//!
//! The crate keeps the history of visited pages as a stack that always holds
//! its root page, and decides what a back gesture of the host platform or a
//! navigation intent of the user interface does to that stack and which page
//! the user interface has to show afterwards. It performs no input or output:
//! the caller owns the lock around the state and carries out the commands.

pub mod events;
pub mod laws;
pub mod navigation_handler;
pub mod stack;

pub use events::{
    on_host_back_request, on_navigate_back, on_navigate_to, BackOutcome, Delivery, ExitDecision,
    UiCommand,
};
pub use navigation_handler::{
    current_page, init_navigation_state, pop_page, pop_to_previous, push_page, NavigationState,
};
pub use stack::NavigationStack;
