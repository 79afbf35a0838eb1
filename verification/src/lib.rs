//! The rules of an Active Worlds universe server: who may log in and as whom, what
//! citizens, contacts, telegrams, botgrams, joins, licenses, ejections and universe
//! attributes a request may read or change, how database rows become records, and the
//! interactive configuration. Each request's decisions are functions from plain
//! values (the client's state, packet variables, database results) to the answer and
//! the changes to make; reading packets, the database and the clock is left to the
//! caller.

pub mod attrib;
pub mod botgram;
pub mod citizen;
pub mod client;
pub mod config;
pub mod contact;
pub mod contact_request;
pub mod db;
pub mod eject;
pub mod join;
pub mod license;
pub mod login;
pub mod packet;
pub mod reason;
pub mod telegram;
pub mod text;
pub mod timestamp;
pub mod uri;
pub mod world;
