//! Addresses of the store's endpoints, as the `url` crate makes them.
//!
//! The crate's parser and serializer are not verified here. What this module
//! takes on trust of them is stated in the declarations below: each call
//! gives a result that depends on its arguments alone, and appending a pair
//! to a URL that has room for it does not fail.

use url::{ParseError, Url};
use vstd::prelude::*;
use vstd::string::StringSliceAdditionalSpecFns;

use crate::request::params_text;

verus! {

/// `url::Url`, a parsed URL. Nothing is known of what is inside it but
/// through `url_text`.
#[verifier::external_type_specification]
#[verifier::external_body]
pub struct ExUrl(url::Url);

/// `url::ParseError`, the reason why a text stands for no URL. It is
/// carried to the caller as it came.
#[verifier::external_type_specification]
#[verifier::external_body]
pub struct ExParseError(url::ParseError);

/// The text of a URL: its serialization, which `Url::as_str` returns.
pub uninterp spec fn url_text(url: Url) -> Seq<char>;

/// What `Url::parse` makes of a text: the text of the URL that it stands
/// for, or the reason why it stands for none.
pub uninterp spec fn url_parse(text: Seq<char>) -> Result<Seq<char>, ParseError>;

/// What `Url::join` makes of a reference, read against the URL whose text is
/// `base`: the text of the URL that it resolves to, or the reason why it
/// resolves to none.
pub uninterp spec fn url_join(base: Seq<char>, reference: Seq<char>) -> Result<
    Seq<char>,
    ParseError,
>;

/// The text of the URL whose text is `url` after the pair `name=value` is
/// appended to its query, as `Serializer::append_pair` encodes it.
pub uninterp spec fn url_append_pair(url: Seq<char>, name: Seq<char>, value: Seq<char>) -> Seq<
    char,
>;

/// The number of bytes that a text takes.
pub open spec fn byte_len(text: Seq<char>) -> nat {
    vstd::utf8::encode_utf8(text).len()
}

/// The longest URL that the `url` crate supports, in bytes.
pub const MAX_URL_LEN: u64 = 0xffff_ffff;

/// Whether a URL has room for one more pair: each byte of the pair takes at
/// most three bytes in the query, and the pair needs up to three separators.
/// The bound is on the safe side: it counts every byte of the pair as three,
/// so it may refuse a pair that would still fit once encoded.
pub open spec fn has_room(url: Seq<char>, name: Seq<char>, value: Seq<char>) -> bool {
    byte_len(url) + 3 * byte_len(name) + 3 * byte_len(value) + 3 <= MAX_URL_LEN
}

/// `Url::parse` reads an absolute URL from a text. Its outcome depends on
/// the text alone.
pub assume_specification[ Url::parse ](input: &str) -> (outcome: Result<Url, ParseError>)
    ensures
        match outcome {
            Ok(url) => url_parse(input@) == Ok::<Seq<char>, ParseError>(url_text(url)),
            Err(error) => url_parse(input@) == Err::<Seq<char>, ParseError>(error),
        },
;

/// `Url::join` reads a reference with this URL as its base. Its outcome
/// depends on the base's text and the reference alone.
pub assume_specification[ Url::join ](base: &Url, input: &str) -> (outcome: Result<
    Url,
    ParseError,
>)
    ensures
        match outcome {
            Ok(url) => url_join(url_text(*base), input@) == Ok::<Seq<char>, ParseError>(
                url_text(url),
            ),
            Err(error) => url_join(url_text(*base), input@) == Err::<Seq<char>, ParseError>(error),
        },
;

/// `Url::as_str` returns the URL's serialization.
pub assume_specification<'a>[ Url::as_str ](url: &'a Url) -> (text: &'a str)
    ensures
        text@ == url_text(*url),
;

/// `Url::query_pairs_mut`, then `Serializer::append_pair`: appends one pair
/// to the URL's query. The new text depends on the old one and the pair
/// alone. The call fails on a URL that grows past `MAX_URL_LEN`, which
/// `requires` leaves out.
#[verifier::external_body]
fn append_pair(url: &mut Url, name: &str, value: &str)
    requires
        has_room(url_text(*old(url)), name@, value@),
    ensures
        url_text(*final(url)) == url_append_pair(url_text(*old(url)), name@, value@),
{
    url.query_pairs_mut().append_pair(name, value);
}

/// `ParseError::Overflow`, the `url` crate's error for a URL that is longer
/// than it supports.
#[verifier::external_body]
pub(crate) fn url_too_long() -> ParseError {
    ParseError::Overflow
}

/// Appends the pair `name=value` to the query of `url` where the URL has
/// room for it. Where it has not, `url` stays as it is and the result is
/// `false`.
pub fn push_pair(url: &mut Url, name: &str, value: &str) -> (pushed: bool)
    ensures
        pushed == has_room(url_text(*old(url)), name@, value@),
        pushed ==> url_text(*final(url)) == url_append_pair(url_text(*old(url)), name@, value@),
        !pushed ==> *final(url) == *old(url),
{
    let third: usize = 0x5555_5555;
    let url_len = url.as_str().as_bytes().len();
    let name_len = name.as_bytes().len();
    let value_len = value.as_bytes().len();
    if name_len > third || value_len > third || url_len > 0xffff_ffff {
        return false;
    }
    let needed: u64 = url_len as u64 + 3 * (name_len as u64) + 3 * (value_len as u64) + 3;
    if needed > MAX_URL_LEN {
        return false;
    }
    append_pair(url, name, value);
    true
}

/// The text of the URL whose text is `url` after `pairs` are appended to
/// its query, one after the other.
pub open spec fn with_pairs(url: Seq<char>, pairs: Seq<(Seq<char>, Seq<char>)>) -> Seq<char>
    decreases pairs.len(),
{
    if pairs.len() == 0 {
        url
    } else {
        url_append_pair(with_pairs(url, pairs.drop_last()), pairs.last().0, pairs.last().1)
    }
}

/// Whether a URL has room for `pairs`: for each of them when its turn
/// comes.
pub open spec fn fits(url: Seq<char>, pairs: Seq<(Seq<char>, Seq<char>)>) -> bool
    decreases pairs.len(),
{
    pairs.len() == 0 || (fits(url, pairs.drop_last()) && has_room(
        with_pairs(url, pairs.drop_last()),
        pairs.last().0,
        pairs.last().1,
    ))
}

/// Where a URL has room for all of `pairs`, it has room for the first `n`
/// of them and for the one after.
proof fn lemma_fits_prefix(url: Seq<char>, pairs: Seq<(Seq<char>, Seq<char>)>, n: int)
    requires
        fits(url, pairs),
        0 <= n < pairs.len(),
    ensures
        fits(url, pairs.take(n)),
        has_room(with_pairs(url, pairs.take(n)), pairs[n].0, pairs[n].1),
    decreases pairs.len(),
{
    if n == pairs.len() - 1 {
        assert(pairs.take(n) =~= pairs.drop_last());
    } else {
        lemma_fits_prefix(url, pairs.drop_last(), n);
        assert(pairs.drop_last().take(n) =~= pairs.take(n));
    }
}

/// Appends `params` to the query of `url`, in their order, each handed to
/// the `url` crate as plain text and once.
///
/// Where the URL has no room for them, the result is the `url` crate's
/// error for a URL that is too long.
pub fn with_query(url: Url, params: &Vec<(&'static str, String)>) -> (result: Result<
    Url,
    ParseError,
>)
    ensures
        fits(url_text(url), params_text(params@)) ==> (result matches Ok(full) && url_text(full)
            == with_pairs(url_text(url), params_text(params@))),
        !fits(url_text(url), params_text(params@)) ==> result is Err,
{
    let ghost start = url_text(url);
    let ghost pairs = params_text(params@);
    let mut full = url;
    let mut i: usize = 0;
    while i < params.len()
        invariant
            i <= params.len(),
            start == url_text(url),
            pairs == params_text(params@),
            fits(start, pairs.take(i as int)),
            url_text(full) == with_pairs(start, pairs.take(i as int)),
        decreases params.len() - i,
    {
        let name: &str = params[i].0;
        let pushed = push_pair(&mut full, name, params[i].1.as_str());
        proof {
            assert(pairs[i as int] == (params[i as int].0@, params[i as int].1@));
            assert(pairs.take(i + 1).drop_last() =~= pairs.take(i as int));
            assert(pairs.take(i + 1).last() == pairs[i as int]);
            if !pushed && fits(start, pairs) {
                lemma_fits_prefix(start, pairs, i as int);
            }
        }
        if !pushed {
            return Err(url_too_long());
        }
        i = i + 1;
    }
    proof {
        assert(pairs.take(params.len() as int) =~= pairs);
    }
    Ok(full)
}

} // verus!
