//! Core of a chat bot: the decision, queue, session and classification
//! pipeline. Inbound events pass an ingestion filter, wait in a bounded
//! FIFO queue, and are dispatched one at a time by a worker that keeps
//! bounded per-channel conversation state and derives a persona directive
//! from the message's keywords and sentiment. The gateway, the completion
//! backend and the clock are outside collaborators reached through narrow
//! interfaces; everything that decides or computes is specified and
//! verified here.

pub mod classifier;
pub mod clock;
pub mod dispatch;
pub mod filter;
pub mod queue;
pub mod session;
pub mod text;
