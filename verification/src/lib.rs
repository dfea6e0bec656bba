//! A person's weight, held four ways.
//!
//! * `v1`: a bare number, of which nothing says the unit.
//! * `v2`: a number tagged with its unit at run time. Both conversions can be
//!   called on every weight and do nothing where the unit is already right.
//! * `v3`: a number whose unit is part of its type. Only the conversion away
//!   from that unit exists, and it uses the old value up.
//! * `v4`: as `v3`, with both conversions written as impls of `From`.
//!
//! `scale` holds the arithmetic of the conversions and what is proved of it,
//! `text` the wording of magnitudes and persons.

pub mod scale;
pub mod text;
pub mod v1;
pub mod v2;
pub mod v3;
pub mod v4;
