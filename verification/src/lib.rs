//! Split-read and discordant-pair evidence classification for aligned
//! sequencing records, with the small record summaries that accompany it.

pub mod base_type;
pub mod bytes;
pub mod cigar;
pub mod classifier;
pub mod criteria;
pub mod error;
pub mod extent;
pub mod record;
pub mod supplementary;
pub mod template;
