//! Core of a gateway between a wired device bus and a cloud publish/subscribe
//! channel: the data model of both sides, the rules that map one to the other,
//! the mailboxes shared by the two threads, and the decisions of the two loops.

pub mod bus;
pub mod cloud;
pub mod command;
pub mod engine;
pub mod gateway;
pub mod mailbox;
pub mod mqtt;
pub mod state;
