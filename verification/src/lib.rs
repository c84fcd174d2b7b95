//! PredLab core: the verified logic shared by the leaderboard site, the
//! member TUI, the admin TUI and the desktop client.

pub mod clock;
pub mod text;
pub mod money;
pub mod site;
pub mod tui;
pub mod admin;
pub mod gui;
