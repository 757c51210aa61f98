//! Wire protocol, user directory and command handling of a small chat
//! service, with contracts checked by Verus.
//!
//! Shared by both ends: the byte cursor ([`io`]), integer and text
//! encodings ([`utils`], [`text`]), and the frames of commands and
//! notifications ([`command`], [`notification`], [`auth`], [`messaging`]).
//! Server side: framing ([`server`]), the rules of each command
//! ([`command_handler`]) and the handler over the account directory
//! ([`server_handler`], [`user`]). Client side: reading replies
//! ([`networking`]), the notification queue ([`notifications_handler`]) and
//! the state of the forms and contact list ([`auth_page`], [`contacts_panel`],
//! [`messenger`]).

pub mod io;
pub mod utils;
pub mod text;
pub mod auth;
pub mod command;
pub mod notification;
pub mod messaging;
pub mod user;
pub mod server;
pub mod command_handler;
pub mod server_handler;
pub mod networking;
pub mod notifications_handler;
pub mod auth_page;
pub mod contacts_panel;
pub mod messenger;
