//! Line classifiers for the block structure of a markdown document.
//!
//! A block parser walks a document line by line. At each step it hands the
//! unconsumed rest of the document to the classifiers of this crate, which
//! say whether the current line is a horizontal rule ([`is_hrule`]), a
//! blank line ([`is_empty`]) or the opening of a fenced code block
//! ([`is_codefence`]), and if so how many bytes it takes up and what
//! follows it. An input that is none of these is no error: the classifier
//! returns `None`.
//!
//! Every classifier is a function of its input alone. What it returns is
//! stated over the bytes of the input by the specification functions
//! `rule_len`, `blank_len` and `fence_len`.

pub mod blank;
pub mod bytes;
pub mod fence;
pub mod hrule;
pub mod line;
pub mod outcome;
pub mod prefix;
pub mod progress;
pub mod run;

pub use blank::is_empty;
pub use bytes::{BACKTICK, CR, DASH, NL, SP, STAR, TAB, TILDE, UNDERSCORE};
pub use fence::is_codefence;
pub use hrule::is_hrule;
pub use outcome::{FenceMatch, LineMatch};
pub use prefix::skip_initial_three_spaces;
