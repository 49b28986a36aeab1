//! What is done about the Gateway's dialogs.
//!
//! A handler says which windows it is for, and what is clicked there, one action at a time:
//! its `handle` takes the replies to the actions so far and gives the next one.

pub mod accept_connection;
pub mod gateway_notification;
pub mod ssl_reconnect;
pub mod step;
pub mod tip_of_day;
pub mod version_notice;
