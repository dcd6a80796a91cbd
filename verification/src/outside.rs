//! The items of other crates and of the standard library that this library
//! builds on.
//!
//! Nothing in this file is proved. A type declared here is opaque: a value of
//! it is carried, never looked into. A contract stated here is taken from the
//! documentation or the source of the item that it speaks of.

use std::time::{Duration, Instant};
use kstring::KString;
use vstd::prelude::*;

verus! {

/// `String::push` appends one character to the end of the string.
pub assume_specification[ String::push ](s: &mut String, ch: char)
    ensures
        final(s)@ == old(s)@.push(ch),
;

/// `std::time::Instant`, a reading of the monotonic clock. Nothing is known of
/// what a value holds.
#[verifier::external_type_specification]
#[verifier::external_body]
pub struct ExInstant(std::time::Instant);

/// `Instant::now` reads the monotonic clock. The reading depends on when the
/// call is made, so nothing is claimed of it.
pub assume_specification[ Instant::now ]() -> (now: Instant)
;

/// `Instant::elapsed` reads the monotonic clock and returns the time since the
/// instant. The result depends on when the call is made, so nothing is claimed
/// of it.
pub assume_specification[ Instant::elapsed ](instant: &Instant) -> (elapsed: Duration)
;

/// `Duration::as_nanos` returns the duration in nanoseconds. It is called on
/// readings of the clock only, of which nothing is claimed.
pub assume_specification[ Duration::as_nanos ](duration: &Duration) -> (nanos: u128)
;

/// `kstring::KStringBase`, an immutable string. What one holds goes by the
/// name [`kstring_text`].
#[verifier::external_type_specification]
#[verifier::external_body]
#[verifier::reject_recursive_types(B)]
pub struct ExKStringBase<B>(kstring::KStringBase<B>);

/// `fxhash::FxHasher`, the hasher of the maps from names to processes.
#[verifier::external_type_specification]
#[verifier::external_body]
pub struct ExFxHasher(fxhash::FxHasher);

/// `std::hash::BuildHasherDefault`, which makes the hashers of those maps.
#[verifier::external_type_specification]
#[verifier::external_body]
#[verifier::reject_recursive_types(H)]
pub struct ExBuildHasherDefault<H>(std::hash::BuildHasherDefault<H>);

/// `tui::style::Style`, the colours and modifiers of a row. A row carries its
/// style to the renderer; nothing is known of what a value holds.
#[verifier::external_type_specification]
#[verifier::external_body]
pub struct ExStyle(tui::style::Style);

/// The characters that a `KString` holds.
pub uninterp spec fn kstring_text(s: KString) -> Seq<char>;

/// `KString::from_ref` makes a `KString` that holds the characters of `text`.
#[verifier::external_body]
pub(crate) fn kstring_from_ref(text: &str) -> (s: KString)
    ensures
        kstring_text(s) == text@,
{
    KString::from_ref(text)
}

/// `secs` divided by `per`, rounded towards zero.
pub open spec fn whole_units(secs: int, per: int) -> int {
    if secs >= 0 {
        secs / per
    } else {
        -((-secs) / per)
    }
}

/// `time::Duration::whole_hours` of a duration of `secs` seconds: the seconds
/// divided by 3600, rounded towards zero.
#[verifier::external_body]
pub(crate) fn whole_hours(secs: i64) -> (hours: i64)
    ensures
        hours == whole_units(secs as int, 3600),
{
    time::Duration::seconds(secs).whole_hours()
}

/// `time::Duration::whole_minutes` of a duration of `secs` seconds: the seconds
/// divided by 60, rounded towards zero.
#[verifier::external_body]
pub(crate) fn whole_minutes(secs: i64) -> (minutes: i64)
    ensures
        minutes == whole_units(secs as int, 60),
{
    time::Duration::seconds(secs).whole_minutes()
}

/// `time::Duration::whole_seconds` of a duration of `secs` seconds: the seconds
/// it was made of.
#[verifier::external_body]
pub(crate) fn whole_seconds(secs: i64) -> (seconds: i64)
    ensures
        seconds == secs,
{
    time::Duration::seconds(secs).whole_seconds()
}

} // verus!
