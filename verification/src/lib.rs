//! A protocol and data model for driving a speech decoding engine.
//!
//! The engine is a native library with a state of its own. This crate
//! holds everything about its use that can be decided without calling it:
//! the order in which a session may be driven, the meaning of the engine's
//! answers, the table of named searches, the walk along the engine's
//! chains, and the shape of what the engine hands back: hypotheses, their
//! words, and parsed grammars.

pub mod chain;
pub mod cmd_ln;
pub mod cursor;
pub mod decoder;
pub mod error;
pub mod jsgf;
pub mod nbest;
pub mod search;
pub mod text;

pub use crate::chain::Cursor;
pub use crate::cmd_ln::CmdLn;
pub use crate::decoder::{PsDecoder, PsDecoderSearchExt, UttState};
pub use crate::error::{Error, ErrorKind};
pub use crate::jsgf::{Alternatives, Atom, Atoms, Jsgf, Rule, RuleData, Rules, Tags};
pub use crate::nbest::{NBest, NBestIter, Seg, SegIter, SegProbs};
pub use crate::search::{SearchEntry, SearchKind, SearchTable, Searches};
