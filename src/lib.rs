//! Per-packet source extraction for an XDP hook: a bounds-checked classifier
//! of Ethernet/IPv4/TCP/UDP frames, a bounded hand-off queue between the
//! ingestion path and its consumer, and the consumer's reporting logic.
pub mod record;
pub mod headers;
pub mod packet;
pub mod queue;
pub mod hook;
pub mod consumer;
