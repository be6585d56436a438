//! A small in-memory credential store whose lock state is part of its type.
//!
//! A [`password_manager::PasswordManagerBuilder`] gathers accounts and a master password and
//! builds a locked [`password_manager::PasswordManager`]; only the master password unlocks it,
//! and only an unlocked manager lets its passwords be read or changed.

pub mod accounts;
pub mod laws;
pub mod password_manager;
