//! Core rules of the Cuckoo restaurant back office: roles and PINs, message
//! classification, encoders, recipe graphs, order and marketing decisions,
//! print formats and template rendering.

pub mod numtext;
pub mod orders;
pub mod auth;
pub mod codec;
pub mod escpos;
pub mod guards;
pub mod marketing;
pub mod menu;
pub mod messages;
pub mod model;
pub mod pinhash;
pub mod printroute;
pub mod recipes;
pub mod reports;
pub mod requests;
pub mod roles;
pub mod selforder;
pub mod settings;
pub mod sync;
pub mod template;
pub mod text;
pub mod tickets;
pub mod tspl;
