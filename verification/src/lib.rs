//! A turn-passing ownership game: a single token is held by exactly one
//! participant at a time, and the holder must hand it to another participant
//! before a fixed deadline window elapses or the token is forfeited.
//!
//! The engine is pure and host-agnostic: the caller's identity and the current
//! tick (the host's block height) are explicit parameters of every operation,
//! and possession may optionally be materialized as a minted asset on an
//! external ledger, whose call outcomes are likewise handed in by the host.

mod account;
mod game;
mod laws;

pub use account::AccountId;
pub use game::GameView;
pub use game::HotPotatoError;
pub use game::Hotpotato;
pub use game::deadline_burned_transition;
pub use game::deadline_transition;
pub use game::end_transition;
pub use game::initial_view;
pub use game::pass_transferred_transition;
pub use game::pass_transition;
pub use game::remaining_at;
pub use game::start_minted_transition;
pub use game::start_transition;
pub use laws::lemma_deadline_resolution_idempotent;
pub use laws::lemma_end_authorization;
pub use laws::lemma_ledger_failure_atomic;
pub use laws::lemma_pass_only_holder;
pub use laws::lemma_pass_window;
pub use laws::lemma_remaining_never_negative;
pub use laws::lemma_start_refused_while_active;
