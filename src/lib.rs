//! Installs a locked environment into a prefix: the verified parts are the
//! resolution of an environment and platform out of a lockfile, the mirror
//! table for the download client, and the layout of activation scripts.
pub mod activation;
pub mod client;
pub mod lockfile;
pub mod mirror;
pub mod resolve;
