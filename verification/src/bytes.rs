//! The bytes that the classifiers tell apart.

use vstd::prelude::*;

verus! {

/// A space, `' '`.
pub const SP: u8 = 0x20;

/// A line feed, `'\n'`, which ends a line.
pub const NL: u8 = 0x0a;

/// A carriage return, `'\r'`.
pub const CR: u8 = 0x0d;

/// A horizontal tab, `'\t'`.
pub const TAB: u8 = 0x09;

/// An asterisk, `'*'`.
pub const STAR: u8 = 0x2a;

/// A hyphen, `'-'`.
pub const DASH: u8 = 0x2d;

/// An underscore, `'_'`.
pub const UNDERSCORE: u8 = 0x5f;

/// A tilde, `'~'`.
pub const TILDE: u8 = 0x7e;

/// A backtick.
pub const BACKTICK: u8 = 0x60;

} // verus!
