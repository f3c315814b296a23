//! A dashboard for one pull request: the record that the hosting service
//! reports, the rows it is shown as, the screen that keeps one row for each
//! key, and the loop that redraws and refreshes until every check is over.
//! What is read from and written to the outside world is handed in and out as
//! plain values.

pub mod args;
pub mod brief;
pub mod commands;
pub mod models;
pub mod palette;
pub mod prinfo;
pub mod registry;
pub mod rows;
pub mod scheduler;
pub mod text;
