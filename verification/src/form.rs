//! Form bodies (`application/x-www-form-urlencoded`), encoded by
//! `serde_urlencoded`.

use vstd::prelude::*;

verus! {

#[verifier::external_type_specification]
#[verifier::external_body]
pub struct ExFormError(serde_urlencoded::ser::Error);

/// What `serde_urlencoded` makes of a list of name and value pairs: the
/// encoded body, or `None` where it refuses the list.
pub uninterp spec fn form_urlencoded(pairs: Seq<(Seq<char>, Seq<char>)>) -> Option<Seq<char>>;

/// Encodes the pairs, in their order, with `serde_urlencoded::to_string`.
///
/// Not proved: that the text returned is the one that `serde_urlencoded`
/// produces for these pairs, and that it fails exactly where
/// [`form_urlencoded`] is `None`. Nothing is claimed about what the encoding
/// looks like or when it succeeds.
#[verifier::external_body]
pub(crate) fn urlencode(pairs: &Vec<(String, String)>) -> (r: Result<
    String,
    serde_urlencoded::ser::Error,
>)
    ensures
        match r {
            Ok(text) => form_urlencoded(pairs.deep_view()) == Some(text@),
            Err(_) => form_urlencoded(pairs.deep_view()) is None,
        },
{
    serde_urlencoded::to_string(pairs)
}

} // verus!
