//! The client's side: reply futures and the loop between client and connector.

pub mod connector;
pub mod future;
pub mod internal;
pub mod relay;
