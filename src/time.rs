use vstd::prelude::*;

use chrono::{NaiveDateTime, SecondsFormat};

verus! {

#[verifier::external_type_specification]
#[verifier::external_body]
pub struct ExNaiveDateTime(NaiveDateTime);

/// Relies on chrono's derived `Clone` for `NaiveDateTime`: the copy is the
/// same timestamp.
pub assume_specification[ <NaiveDateTime as Clone>::clone ](d: &NaiveDateTime) -> (r: NaiveDateTime)
    ensures
        r == *d,
;

/// The RFC 3339 text of the instant whose UTC wall-clock time is `d`, as
/// chrono writes it when it serializes a `DateTime<Utc>`.
pub uninterp spec fn utc_rfc3339_of(d: NaiveDateTime) -> Seq<char>;

/// Relies on chrono's `NaiveDateTime::and_utc` and
/// `DateTime::to_rfc3339_opts` with automatic sub-second digits and a `Z`
/// suffix, the form that chrono's `Serialize` writes for a query argument.
#[verifier::external_body]
pub(crate) fn utc_rfc3339_text(d: &NaiveDateTime) -> (r: String)
    ensures
        r@ == utc_rfc3339_of(*d),
{
    d.and_utc().to_rfc3339_opts(SecondsFormat::AutoSi, true)
}

} // verus!
