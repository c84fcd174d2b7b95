//! The public leaderboard site: tables, pages and standings.

pub mod table;
pub mod board;
pub mod browse;
pub mod pages;
