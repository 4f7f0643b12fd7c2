use vstd::prelude::*;

pub mod codec;
pub mod metrics;
pub mod arena;
pub mod serial;
pub mod srt;

verus! {
}
