//! The direct URL of a profile's avatar image.

use crate::gravatar::GRAVATAR_URL;
use crate::text::{decimal, decimal_string};
use vstd::prelude::*;
use vstd::string::*;

verus! {

/// The size that is asked for when the query names none.
pub const DEFAULT_SIZE: i16 = 200;

/// The size an avatar is asked in: the one given, or `DEFAULT_SIZE`.
pub open spec fn effective_size(size: Option<i16>) -> int {
    match size {
        Some(s) => s as int,
        None => DEFAULT_SIZE as int,
    }
}

/// The query string that asks for a size.
pub open spec fn size_query(size: int) -> Seq<char> {
    "?s="@ + decimal(size)
}

/// The avatar URL for a profile hash and a size.
pub open spec fn avatar_url_of(hash: Seq<char>, size: int) -> Seq<char> {
    GRAVATAR_URL@ + "avatar/"@ + hash + size_query(size)
}

/// Builds the avatar URL `<base>avatar/<hash>?s=<size>`, with `DEFAULT_SIZE`
/// where no size is given.
pub fn avatar_url(hash: &str, size: Option<i16>) -> (url: String)
    ensures
        url@ == avatar_url_of(hash@, effective_size(size)),
{
    let img_size = match size {
        Some(s) => s,
        None => DEFAULT_SIZE,
    };
    let mut url = String::from_str(GRAVATAR_URL);
    url.append("avatar/");
    url.append(hash);
    url.append("?s=");
    url.append(decimal_string(img_size).as_str());
    assert(url@ =~= avatar_url_of(hash@, effective_size(size)));
    url
}

/// An avatar URL ends with `?s=` and the size in decimal, verbatim.
pub proof fn lemma_avatar_url_names_size(hash: Seq<char>, size: int)
    ensures
        size_query(size).is_suffix_of(avatar_url_of(hash, size)),
{
    let url = avatar_url_of(hash, size);
    let tail = size_query(size);
    assert(url.subrange(url.len() - tail.len(), url.len() as int) =~= tail);
}

/// With no size given, an avatar URL ends with `?s=200`.
pub proof fn lemma_avatar_url_default_size(hash: Seq<char>)
    ensures
        "?s=200"@.is_suffix_of(avatar_url_of(hash, effective_size(None))),
{
    reveal_strlit("?s=200");
    reveal_strlit("?s=");
    reveal_with_fuel(crate::text::decimal_digits, 3);
    assert(size_query(200) =~= "?s=200"@);
    lemma_avatar_url_names_size(hash, 200);
}

} // verus!
