//! Game-record helpers for a Honkai: Star Rail desktop widget: request
//! signing, response checking, data conversion and notification rules.

pub mod text;
pub mod ds;
pub mod ledger;
pub mod periodic_act;
pub mod player;
pub mod widget;
pub mod challenge;
pub mod rogue_archive;
pub mod json;
pub mod client;
pub mod hsr_client;
pub mod notify;
pub mod cache;
