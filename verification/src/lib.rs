//! Progression, economy, anti-spam and suggestion-voting rules of a chat
//! community, as verified state transitions over plain values.

pub mod activity;
pub mod antispam;
pub mod birthdays;
pub mod blackjack;
pub mod calendar;
mod chance;
pub mod economy;
pub mod errors;
pub mod leaderboard;
pub mod leveling;
pub mod members;
pub mod moderation;
pub mod pattern;
pub mod profile;
pub mod ranking;
pub mod roles;
pub mod schedule;
pub mod settings;
pub mod standard_curve;
pub mod suggestion_posts;
pub mod suggestions;
pub mod sync;
pub mod text;
pub mod vote_markers;
