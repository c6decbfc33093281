//! Session lifecycle and progression engine for an adaptive practice loop
//! in which a learner describes generated images.
//!
//! A learner is shown an image and says what they see. Each utterance is
//! judged against the key details of the image; the engine merges the
//! verdict into the session, keeps the checklist, counts fruitless
//! attempts, and decides when the session gives way to a new image, at the
//! same or at another difficulty.
//!
//! The engine decides and the caller acts: generating prompts, images,
//! descriptions and key details, evaluating utterances and writing files
//! are the caller's part, and every operation here takes what those brought
//! back as plain values. Fractions are held in basis points, so that
//! nothing here depends on floating point.
//!
//! - [`session`], [`checklist`], [`difficulty`]: the data and its invariant.
//! - [`policy`]: the threshold, the advancement rules, the encouragement.
//! - [`lifecycle`]: starting a session and archiving the one it replaces.
//! - [`engine`]: one turn, from utterance to the next state.
//! - [`verdict`], [`evaluation`], [`prompt`]: what the models are asked and
//!   the tolerant reading of what they answer.
//! - [`payload`], [`export`], [`visualization`]: images as data URLs, what
//!   is written for keeping, and the views of a session as text.
//! - [`text`]: the text helpers under all of these.

pub mod checklist;
pub mod config;
pub mod difficulty;
pub mod engine;
pub mod evaluation;
pub mod export;
pub mod lifecycle;
pub mod payload;
pub mod policy;
pub mod prompt;
pub mod session;
pub mod text;
pub mod verdict;
pub mod visualization;
