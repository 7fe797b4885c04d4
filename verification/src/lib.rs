//! A verified model of the XCM test environment used by the XCM pallet:
//! locations, message senders and the router that composes them, the log of
//! sent messages, the test notifier pallet and the runtime event log.
pub mod location;
pub mod asset;
pub mod hashing;
pub mod sent;
pub mod senders;
pub mod router;
pub mod config;
pub mod notifier;
pub mod scale;
pub mod events;
pub mod genesis;
