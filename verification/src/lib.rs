//! In-place construction of values whose size and alignment are known only
//! at run time: a layout resolver, a one-shot construction plan, and two
//! storage strategies (a borrowed buffer that may reject, a heap arena that
//! cannot), glued together by a first-fit fallback policy.

mod buffer;
mod ctor;
mod drive;
mod fit;
mod heap;
mod layout;
mod place;
mod progress;
mod read;
mod resolve;

pub use buffer::{BufHandle, BufRegion, Rejected};
pub use ctor::Ctor;
pub use drive::{eventual_value, lemma_countdown_eventual, Countdown, Drive};
pub use fit::{accepts, aligned, align_up, fit_slot, fits, spec_align_up};
pub use fit::{lemma_align_up, lemma_align_up_minimal, lemma_fit_aligned_base, lemma_fit_correctness};
pub use heap::{lemma_alloc_free_round_trip, HeapArena, HeapExhausted, HeapHandle};
pub use layout::{is_pow2, is_power_of_two, lemma_pow2_pos, Layout};
pub use place::{
    emplace_with_fallback, lemma_driven_step_independent, lemma_storage_choice_irrelevant, Placed,
};
pub use progress::Progress;
pub use read::{MemReader, Read, ReadError};
pub use resolve::{lemma_resolve_stable, resolve, spec_resolve, ProducerDesc};
