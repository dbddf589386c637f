use vstd::prelude::*;

verus! {

/// What parsing `s` as an RFC 3339 timestamp reports: `None` when it parses,
/// else the text of the parse error.
pub uninterp spec fn rfc3339_error(s: Seq<char>) -> Option<Seq<char>>;

/// Relies on `chrono::DateTime::parse_from_rfc3339`, whose outcome depends on
/// the text alone; an error is handed back as its `Display` text.
#[verifier::external_body]
fn check_timestamp(s: &str) -> (r: Result<(), String>)
    ensures
        r is Ok <==> rfc3339_error(s@) is None,
        r matches Err(e) ==> rfc3339_error(s@) == Some(e@),
{
    chrono::DateTime::parse_from_rfc3339(s).map(|_| ()).map_err(|e| e.to_string())
}

/// The text shown for when a model was modified. `relative` is the time since
/// `modified_at` in words, as the host computed it against its clock; it is
/// used when `modified_at` is a valid RFC 3339 timestamp. A timestamp that does
/// not parse is not an error: its parse error's text is shown instead.
pub fn modified_ago(modified_at: &str, relative: String) -> (r: String)
    ensures
        rfc3339_error(modified_at@) is None ==> r == relative,
        rfc3339_error(modified_at@) matches Some(e) ==> r@ == e,
{
    match check_timestamp(modified_at) {
        Ok(()) => relative,
        Err(e) => e,
    }
}

} // verus!
