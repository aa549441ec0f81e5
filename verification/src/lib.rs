//! A streaming lexical tokenizer for markup text.
//!
//! A byte buffer goes in; an ordered sequence of offset-addressed tokens
//! (tags with their attributes, and runs of text) comes out, beside a list
//! of the parse errors that the scan recovered from. No tree is built and no
//! text is copied.
//!
//! - [`tokens`], [`tag_id`], [`state`], [`diagnostics`]: the records.
//! - [`tables`]: the two lookup tables that the tokenizer is given.
//! - [`model`]: the tokenizer as a mathematical state machine.
//! - [`tokenizer`]: the executable tokenizer, proved to compute the model.
//! - [`handover`]: where each state handler hands over, and what it has
//!   done to the machine by then.
//! - [`laws`], [`soundness`], [`naming`], [`uniqueness`], [`measure`]: what
//!   holds of every tokenization.
//! - [`decode`]: character references at decode time.

pub mod bytes;
pub mod decode;
pub mod diagnostics;
pub mod handover;
pub mod laws;
pub mod measure;
pub mod model;
pub mod naming;
pub mod soundness;
pub mod state;
pub mod tables;
pub mod tag_id;
pub mod tokenizer;
pub mod tokens;
pub mod uniqueness;
