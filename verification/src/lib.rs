//! An educational terminal simulator that walks a user through a fictional
//! Arch Linux installation: it shows the real commands, requires the user to
//! type each one back exactly before the walkthrough proceeds, and branches
//! on the user's GPU and device choices.
//!
//! This crate holds the verified core: the user-choice data model, the
//! exact-match command gate, the password-confirmation flow, and the step
//! engine that orders the phases. Terminal input and output live outside it.

pub mod engine;
pub mod gate;
pub mod models;
pub mod password;
pub mod progress;
pub mod steps;
