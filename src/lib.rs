//! A package-manager aggregator: the parsers that turn each backend's listing
//! into package records, the commands each backend runs, the handling of the
//! password handed to privileged commands, and the registry that updates every
//! backend in turn.

use vstd::prelude::*;

pub mod command;
pub mod credential;
pub mod dnf;
pub mod flatpak;
pub mod listing;
pub mod package;
pub mod pacman;
pub mod paru;
pub mod pattern;
pub mod protonge;
pub mod provider;
pub mod providers;
pub mod search;
pub mod settings;
pub mod text;
pub mod winget;

verus! {

} // verus!
