//! Conversions between primitive types, chosen by the two types alone.
//!
//! [`CastFrom`] and [`CastInto`] mirror `From` and `Into`, with the meaning
//! of Rust's `as`: a conversion never fails, and where the target cannot hold
//! the source's number it keeps the low-order bits.
//!
//! ```
//! use casting::{CastFrom, CastInto};
//!
//! assert_eq!(u16::cast_from(42u8), 42u16);
//! assert_eq!(u8::cast_from(300u16), 44u8);
//! let signed: i8 = 255u8.cast_into();
//! assert_eq!(signed, -1i8);
//! ```
//!
//! The table holds `bool`, `char` and the twelve integer types:
//!
//! - every type to itself: the identity;
//! - `bool` to every integer type: 0 or 1;
//! - `char` to every integer type: the code point, or its low-order bits in
//!   a type of 8 or 16 bits;
//! - every integer type to every other: the same number where the target
//!   holds it, else the low-order bits, read with the target's signedness;
//! - `u8` to `char`.
//!
//! A pair that is not in the table has no impl, and a call that names it does
//! not compile. The floating-point types convert to themselves, like every
//! type. Their other conversions are not in this crate: the verifier has no
//! model of a cast to or from a floating-point number.
//!
//! # What is proved
//!
//! Every conversion has a `cast_from_spec`, the value it is proved to return;
//! none has a precondition, and none can overflow or panic. For a conversion
//! into an integer type that value is stated over [`IntKind::wrap`], the one
//! rule behind them all, and [`IntegerEdge`] ties every entry of the table to
//! the rule. The module [`laws`] states what follows for every type and value:
//! identity, the agreement of `cast_into` with `cast_from`, truncation, and
//! the round trip through a wider type.
#![allow(unused_imports)]

pub mod cast;
pub mod kind;
pub mod laws;
pub mod primitive;
pub mod table;
pub mod truncation;

pub use cast::{CastFrom, CastInto};
pub use kind::IntKind;
pub use primitive::{Numbered, PrimitiveInteger};
pub use table::IntegerEdge;
