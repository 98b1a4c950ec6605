//! Purges deleted documents from the databases of a CouchDB server, then compacts each
//! database that lost documents and cleans its stale views.
//!
//! The library decides and the caller acts: [`pipeline::Pipeline`] hands out one
//! [`pipeline::Action`] at a time (a remote call, a question to the operator, the end of
//! the run) and takes the answer to it as a [`pipeline::Event`].

pub mod changes;
pub mod command;
pub mod remote;
pub mod pipeline;
pub mod laws;
