//! Pick one value out of a collection with a fuzzy-search session, and get
//! the very value back, with its type and ownership, exactly once.
//!
//! The verified part: the cell that holds each candidate, the pool of cells
//! with the extraction of the selected one, the wiring of the candidate
//! channel, and the configuration facade.
mod candidate;
mod channel;
mod laws;
mod options;
mod pool;
mod session;

pub use candidate::Candidate;
pub use channel::{accepted, feed, open_channel, refused_at, CandidateSender};
pub use laws::{
    lemma_empty_input_picks_nothing, lemma_extract_leaves_others, lemma_no_selection_picks_nothing,
    lemma_pick_returns_input, lemma_taken_once,
};
pub use options::{pick_default, SkimPick};
pub use pool::{after_extract, after_pick, all_present, chosen, extracted, picked, Candidates};
pub use session::Picking;
