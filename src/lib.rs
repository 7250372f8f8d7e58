//! Reports how long until the next meeting on a calendar, and keeps the
//! OAuth2 token that the calendar query needs.
pub mod token_store;
pub mod meeting;
pub mod failure;
