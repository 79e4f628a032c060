//! The decisions of an installer for a GPU toolkit on Arch Linux.
//!
//! The installer brings a host up to date, lets the user pick one of two
//! bundles of four packages (a compiler, its support library, the toolkit and
//! the toolkit's companion), downloads those packages that are not installed
//! yet into a scratch directory, installs them through the package manager,
//! and removes the scratch directory again, however the run ends.
//!
//! This library holds every decision of that and performs none: it words the
//! commands, reads their endings, and says what to write and what to do
//! next. Running commands, asking the user and writing to the terminal are
//! left to the program that drives a [`session::Session`].
//!
//! - [`cli`]: lines and menus for the user.
//! - [`exec`]: commands, their endings, and the scratch directory.
//! - [`pkgs`]: the manifest, the download of a package, the install batches.
//! - [`session`]: the course of a run, one event at a time.
//! - [`laws`]: what is proved of every run.

pub mod cli;
pub mod exec;
pub mod laws;
pub mod pkgs;
pub mod session;
