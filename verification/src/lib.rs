//! A verified model of the tagged-record value layer of a kdb-style embedded
//! database engine.
//!
//! Every value exchanged with such an engine is a *record*: a small header (a
//! signed type tag, a list attribute byte, a reference count) followed by a
//! payload that is either one scalar slot or a variable-length list of
//! elements whose stride is determined by the tag.  This crate models that
//! record exactly — the tag fully determines how the payload is read — and
//! proves the three pieces of logic that sit on top of it:
//!
//! * the typed accessor layer (`get_byte`, `get_int`, ..., `len`), which
//!   returns a scalar or a mismatch error depending on the tag and never
//!   reinterprets a payload under the wrong kind;
//! * the ownership protocol (`r0` / `r1`), manual reference counting whose
//!   borrowed/owned conventions the boundary functions must follow;
//! * symbol interning (`ss` / `sn`), which deduplicates text so that two
//!   interned handles compare equal exactly when their texts are equal.
//!
//! Calendar conversions between `(year, month, day)` and days since the
//! engine's epoch (2000-01-01) are implemented and verified as well.

#![allow(non_camel_case_types)]
#![allow(non_snake_case)]

pub mod qtype;
pub mod calendar;
pub mod construct;
pub mod extensions;
pub mod intern;
pub mod laws;
pub mod list_ops;
pub mod record;
pub mod refcount;
