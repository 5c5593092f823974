//! Lifecycle of a nested browsing context (an embedded webview) whose content
//! pipeline lives in another process.
//!
//! The element that embeds the context only holds identifiers. It asks the
//! orchestrating process to create, navigate and discard the context, and keeps
//! track of which pipeline is current and which one a navigation is waiting for.
pub mod ids;
pub mod tracker;
pub mod load;
pub mod navigation;
pub mod gateway;
pub mod registry;
pub mod webview;
