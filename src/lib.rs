//! Range-partitioned bulk fetching into one contiguous memory region.
//!
//! The library holds the decisions of the transfer engine: which byte range
//! of which object lands where in the region (`plan`), when a streamed read
//! of one part is complete or came up short (`fetch`), when the scheduler may
//! admit another part and which in-flight part it must wait for (`scheduler`),
//! and how a paginated key listing is accumulated (`listing`). The transport
//! itself runs outside and hands the library plain values.

mod error;
mod fetch;
mod listing;
mod plan;
mod scheduler;

pub use error::BatchError;
pub use fetch::{short_read_of, PartFetch, ReadStatus};
pub use listing::{present_keys, Listing};
pub use plan::{
    covered, covers, is_plan, key_views, lemma_plan_deterministic, lemma_plan_tiles, plan,
    planned_part, region_size, valid_sizes, PartDescriptor, PartView, CHUNK_SIZE, PART_SIZE,
};
pub use scheduler::{
    action_of, lemma_fifo_order, lemma_window_bounded, Action, Scheduler, MAX_CONCURRENT_REQUESTS,
};
