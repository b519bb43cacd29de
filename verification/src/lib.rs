//! A notepad: notes kept in a browser database, a router between its pages,
//! and the state machines of its pages.
pub mod jasper_ji;
