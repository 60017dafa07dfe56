//! What the forwarding handler decides.

pub mod redirect;
