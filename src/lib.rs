//! Control core for a WiFi station: the request protocol spoken to the station
//! actor, the actor's state machine, facts proved about runs of it, and the
//! mapping of channel failures to one error kind for callers.
pub mod types;
pub mod station;
pub mod client;
pub mod lemmas;
