//! The core of a minimal IRC daemon: the line parser, the reply builder, the user and
//! channel registries, and the dispatcher that applies client actions to them and says
//! which lines go to which client.

pub mod protocol;
pub mod text;

pub mod tag;
pub mod tags;
pub mod prefix;
pub mod command;
pub mod request;
pub mod parser;
pub mod response;
pub mod replies;

pub mod config;
pub mod user;
pub mod user_list;
pub mod channel;
pub mod channel_list;
pub mod action;
pub mod reader;

pub mod state;
pub mod server;
pub mod dispatch;

pub mod preservation;
pub mod laws;
pub mod roundtrip;
pub mod welcome_once;
