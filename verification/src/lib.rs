//! Routing of natural-language requests to one of two inference backends.
//!
//! A request is grounded with the results of a web search, classified as
//! being about code or not, and put to the backend for its category. Where
//! the code backend fails, the general backend stands in.
//!
//! The library makes no call of its own. [`dispatch`] is a state machine:
//! it says which call to make next and is handed the call's outcome.
//! [`grounding`] and [`backend`] build the calls and read the replies,
//! [`classify`] picks the category, [`json`] reads the documents that come
//! back, [`gate`] admits inbound requests, and [`replay`] states what holds
//! of every run.

pub mod backend;
pub mod classify;
pub mod config;
pub mod dispatch;
pub mod gate;
pub mod grounding;
pub mod json;
pub mod outcome;
pub mod replay;
pub mod text;
