//! Runtime shell for a persistent, authenticated connection to a remote
//! messaging service.
//!
//! The shell has two moving parts, each modelled as an explicit state
//! machine whose transitions are verified:
//!
//! * [`sign_in`] — the interactive challenge/response flow that brings an
//!   unauthorized connection to an authorized state;
//! * [`dispatch`] — the event loop that races "next event" against a
//!   shutdown request and fans each event out to a detached handler.
//!
//! The machines decide; an unverified driver performs the network calls,
//! prompts and task spawns that each pending action asks for, and feeds the
//! outcome back in as an event.

pub mod config;
pub mod dispatch;
pub mod sign_in;
