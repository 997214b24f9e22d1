//! The logic of a small personal website: the host check that jails bots and unwanted hosts,
//! the jail's rotating choice of file and its answers, the pages' texts and the blog's files.
pub mod blog;
pub mod host;
pub mod jail;
pub mod net;
pub mod pages;
pub mod random;
pub mod state;
pub mod text;
