//! A verified extraction library for esports statistics pages.
//!
//! The library turns parsed HTML documents into typed entities: event
//! listings, match lists, full match details, player profiles and team
//! profiles. Document access (selector matching, text and attribute
//! reads) goes through a small trusted layer; everything computed from
//! the extracted values is specified and verified.

pub mod common;
pub mod dates;
pub mod dom;
pub mod error;
pub mod events;
pub mod match_detail;
pub mod match_item;
pub mod match_page;
pub mod match_stats;
pub mod matchlist;
pub mod numbers;
pub mod player;
pub mod team;
pub mod text;
pub mod utils;
