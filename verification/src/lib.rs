//! The decision core of a terminal client for a study ledger: what every key
//! means, how every screen answers an event, and which calls it asks for.

pub mod action;
pub mod app;
pub mod capture;
pub mod clock;
pub mod command;
pub mod cursor;
pub mod dates;
pub mod edit;
pub mod event;
pub mod json;
pub mod keys;
pub mod line;
pub mod model;
pub mod notify;
pub mod paging;
pub mod panel;
pub mod picker;
pub mod reply;
pub mod screens;
pub mod search;
pub mod text;
