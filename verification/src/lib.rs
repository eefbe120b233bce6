//! The decisions of the 芃麦 printing desktop shell, without its windows.
//!
//! Every function here maps plain values to plain values: what the operating
//! system or the web view reported goes in, what the shell has to do next comes
//! out. The program under `app/` performs the work and hands the replies back.
pub mod desktop;
pub mod download;
pub mod folder;
pub mod popup;
pub mod save;
pub mod scan;
pub mod shell;
pub mod text;
pub mod toast;
pub mod update;
