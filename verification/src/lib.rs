//! Model of a fixed-set window reopen protocol: a session counter that is
//! incremented once per reopen request, and a batch of six windows whose
//! identities and titles embed the counter value as a generation prefix.

pub mod digits;
pub mod laws;
pub mod session;
pub mod windows;
