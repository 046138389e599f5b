//! What the ScreenGuard agent decides when it starts: which command it was
//! given, which settings hold, whether it stays with its pairing or has to make
//! a new one, and which server it talks to on behalf of which account.
pub mod account;
pub mod cloud;
pub mod command_line;
pub mod config;
pub mod startup;
pub mod startup_laws;
pub mod text;
pub mod url;
