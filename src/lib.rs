//! Configuration cascades and chat token accounting for an Azure-hosted
//! chat-completion service, with the search tool's result handling.
pub mod options;
pub mod tokenizer;
pub mod accounting;
pub mod executor;
pub mod google_search;
