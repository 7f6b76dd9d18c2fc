use vstd::prelude::*;
use vstd::string::*;

use crate::api::{endpoint, finish_url, start_url};
use crate::text::{decimal, push_decimal, str_eq};
use crate::ID;

verus! {

/// A genre into which the service sorts works.
#[derive(Debug, Clone, Copy, PartialEq, Eq, Structural)]
pub enum Genre {
    All,
    Popular,
    Recommended,
    Chamber,
    Keyboard,
    Orchestral,
    Stage,
    Vocal,
}

/// The external string form of a genre, used as a path segment.
pub open spec fn genre_str(g: Genre) -> Seq<char> {
    match g {
        Genre::All => "all"@,
        Genre::Popular => "Popular"@,
        Genre::Recommended => "Recommended"@,
        Genre::Chamber => "Chamber"@,
        Genre::Keyboard => "Keyboard"@,
        Genre::Orchestral => "Orchestral"@,
        Genre::Stage => "Stage"@,
        Genre::Vocal => "Vocal"@,
    }
}

/// The name of a genre as it appears inside response bodies: the same as its
/// string form, but capitalised for every genre.
pub open spec fn genre_name(g: Genre) -> Seq<char> {
    match g {
        Genre::All => "All"@,
        _ => genre_str(g),
    }
}

/// The genre whose string form is `s`, if there is one.
pub open spec fn genre_from_str(s: Seq<char>) -> Option<Genre> {
    if exists|g: Genre| genre_str(g) == s {
        Some(choose|g: Genre| genre_str(g) == s)
    } else {
        None
    }
}

/// The genre whose name in response bodies is `s`, if there is one.
pub open spec fn genre_from_name(s: Seq<char>) -> Option<Genre> {
    if exists|g: Genre| genre_name(g) == s {
        Some(choose|g: Genre| genre_name(g) == s)
    } else {
        None
    }
}

/// Address of the list of genres in which a composer wrote.
pub open spec fn genres_of_composer_url(composer_id: ID) -> Seq<char> {
    endpoint("/genre/list/composer/"@ + decimal(composer_id as nat))
}

proof fn reveal_genre_strs()
    ensures
        forall|a: Genre, b: Genre| genre_str(a) == genre_str(b) ==> a == b,
        forall|a: Genre, b: Genre| genre_name(a) == genre_name(b) ==> a == b,
{
    reveal_strlit("all");
    reveal_strlit("All");
    reveal_strlit("Popular");
    reveal_strlit("Recommended");
    reveal_strlit("Chamber");
    reveal_strlit("Keyboard");
    reveal_strlit("Orchestral");
    reveal_strlit("Stage");
    reveal_strlit("Vocal");
    assert forall|a: Genre, b: Genre| genre_str(a) == genre_str(b) implies a == b by {
        if a != b {
            assert(genre_str(a).len() != genre_str(b).len() || genre_str(a)[0] != genre_str(b)[0]);
        }
    }
    assert forall|a: Genre, b: Genre| genre_name(a) == genre_name(b) implies a == b by {
        if a != b {
            assert(genre_name(a).len() != genre_name(b).len() || genre_name(a)[0] != genre_name(b)[0]);
        }
    }
}

/// Distinct genres have distinct string forms and distinct names, so reading a
/// genre back from either gives the genre again.
pub proof fn lemma_genre_round_trip(g: Genre)
    ensures
        genre_from_str(genre_str(g)) == Some(g),
        genre_from_name(genre_name(g)) == Some(g),
        forall|h: Genre| genre_str(h) == genre_str(g) ==> h == g,
        forall|h: Genre| genre_name(h) == genre_name(g) ==> h == g,
{
    reveal_genre_strs();
}

impl Genre {
    /// Every genre.
    pub fn all() -> (r: Vec<Genre>)
        ensures
            forall|g: Genre| r@.contains(g),
            r@.len() == 8,
    {
        let r = vec![
            Genre::All,
            Genre::Popular,
            Genre::Recommended,
            Genre::Chamber,
            Genre::Keyboard,
            Genre::Orchestral,
            Genre::Stage,
            Genre::Vocal,
        ];
        assert forall|g: Genre| r@.contains(g) by {
            match g {
                Genre::All => assert(r@[0] == g),
                Genre::Popular => assert(r@[1] == g),
                Genre::Recommended => assert(r@[2] == g),
                Genre::Chamber => assert(r@[3] == g),
                Genre::Keyboard => assert(r@[4] == g),
                Genre::Orchestral => assert(r@[5] == g),
                Genre::Stage => assert(r@[6] == g),
                Genre::Vocal => assert(r@[7] == g),
            }
        }
        r
    }

    /// The external string form of the genre, used as a path segment.
    pub fn into_url_str(self) -> (r: &'static str)
        ensures
            r@ == genre_str(self),
    {
        match self {
            Genre::All => "all",
            Genre::Popular => "Popular",
            Genre::Recommended => "Recommended",
            Genre::Chamber => "Chamber",
            Genre::Keyboard => "Keyboard",
            Genre::Orchestral => "Orchestral",
            Genre::Stage => "Stage",
            Genre::Vocal => "Vocal",
        }
    }

    /// The name of the genre inside response bodies.
    pub fn name(self) -> (r: &'static str)
        ensures
            r@ == genre_name(self),
    {
        match self {
            Genre::All => "All",
            _ => self.into_url_str(),
        }
    }

    /// The genre whose string form is `s`; `None` for any other text.
    pub fn from_url_str(s: &str) -> (r: Option<Genre>)
        ensures
            r == genre_from_str(s@),
    {
        proof {
            reveal_genre_strs();
        }
        let all = Genre::all();
        let mut i: usize = 0;
        while i < all.len()
            invariant
                all@.len() == 8,
                forall|g: Genre| all@.contains(g),
                i <= all@.len(),
                forall|j: int| 0 <= j < i ==> genre_str(#[trigger] all@[j]) != s@,
            decreases all@.len() - i,
        {
            let g = all[i];
            if str_eq(g.into_url_str(), s) {
                proof {
                    lemma_genre_round_trip(g);
                }
                return Some(g);
            }
            i = i + 1;
        }
        assert forall|g: Genre| genre_str(g) != s@ by {
            assert(all@.contains(g));
        }
        None
    }

    /// The genre whose name in response bodies is `s`; `None` for any other text.
    pub fn from_name(s: &str) -> (r: Option<Genre>)
        ensures
            r == genre_from_name(s@),
    {
        proof {
            reveal_genre_strs();
        }
        let all = Genre::all();
        let mut i: usize = 0;
        while i < all.len()
            invariant
                all@.len() == 8,
                forall|g: Genre| all@.contains(g),
                i <= all@.len(),
                forall|j: int| 0 <= j < i ==> genre_name(#[trigger] all@[j]) != s@,
            decreases all@.len() - i,
        {
            let g = all[i];
            if str_eq(g.name(), s) {
                proof {
                    lemma_genre_round_trip(g);
                }
                return Some(g);
            }
            i = i + 1;
        }
        assert forall|g: Genre| genre_name(g) != s@ by {
            assert(all@.contains(g));
        }
        None
    }

    /// Address of the list of genres in which the composer `composer_id` wrote.
    pub fn list_by_composer_id_url(composer_id: ID) -> (r: String)
        ensures
            r@ == genres_of_composer_url(composer_id),
    {
        let mut r = start_url("/genre/list/composer/");
        push_decimal(&mut r, composer_id);
        finish_url(&mut r);
        assert(r@ =~= genres_of_composer_url(composer_id));
        r
    }
}

} // verus!
