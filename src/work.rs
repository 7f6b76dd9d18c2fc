use vstd::prelude::*;
use vstd::string::*;

use crate::api::{endpoint, finish_url, start_url};
use crate::genre::{genre_str, Genre};
use crate::text::{decimal, push_decimal, str_eq};
use crate::ID;

verus! {

/// A work of a composer, as the service lists it.
#[derive(Debug, Clone, PartialEq, Eq)]
pub struct Work {
    pub title: String,
    pub subtitle: String,
    /// Text the service matches searches against.
    pub search_terms: String,
    pub popular: bool,
    pub recommended: bool,
    pub id: ID,
    pub genre: Genre,
}

/// Meaning of a flag that the service transmits as the text `"0"` or `"1"`;
/// any other text is not a flag.
pub open spec fn int_str_bool(s: Seq<char>) -> Option<bool> {
    if s == "0"@ {
        Some(false)
    } else if s == "1"@ {
        Some(true)
    } else {
        None
    }
}

/// Address of the works of a composer in a genre.
pub open spec fn works_url(composer_id: ID, genre: Genre) -> Seq<char> {
    endpoint("/work/list/composer/"@ + decimal(composer_id as nat) + "/genre/"@ + genre_str(genre))
}

/// Address of the works of a composer in a genre whose title matches `word`.
pub open spec fn works_search_url(composer_id: ID, genre: Genre, word: Seq<char>) -> Seq<char> {
    endpoint(
        "/work/list/composer/"@ + decimal(composer_id as nat) + "/genre/"@ + genre_str(genre)
            + "/search/"@ + word,
    )
}

/// Decodes a `popular` or `recommended` flag: `"0"` is false, `"1"` is true,
/// and any other text fails to decode.
pub fn decode_int_str_bool(s: &str) -> (r: Option<bool>)
    ensures
        r == int_str_bool(s@),
{
    if str_eq(s, "0") {
        Some(false)
    } else if str_eq(s, "1") {
        Some(true)
    } else {
        None
    }
}

impl Work {
    /// Address of the works of the composer `composer_id` in `genre`.
    pub fn list_by_composer_id_and_genre_url(composer_id: ID, genre: Genre) -> (r: String)
        ensures
            r@ == works_url(composer_id, genre),
    {
        let mut r = start_url("/work/list/composer/");
        push_decimal(&mut r, composer_id);
        r.append("/genre/");
        r.append(genre.into_url_str());
        finish_url(&mut r);
        assert(r@ =~= works_url(composer_id, genre));
        r
    }

    /// Address of the works of the composer `composer_id` in `genre` that
    /// match the search text `word`, which is put into the path as it is.
    pub fn search_with_composer_id_and_genre_url(composer_id: ID, genre: Genre, word: &str) -> (r:
        String)
        ensures
            r@ == works_search_url(composer_id, genre, word@),
    {
        let mut r = start_url("/work/list/composer/");
        push_decimal(&mut r, composer_id);
        r.append("/genre/");
        r.append(genre.into_url_str());
        r.append("/search/");
        r.append(word);
        finish_url(&mut r);
        assert(r@ =~= works_search_url(composer_id, genre, word@));
        r
    }
}

} // verus!
