use vstd::prelude::*;
use vstd::string::*;

use crate::api::{endpoint, finish_url, start_url};
use crate::epoch::{epoch_str, Epoch};
use crate::error::{OpenOpusError, OpenOpusResult};
use crate::genre::{genres_of_composer_url, Genre};
use crate::text::{decimal, push_decimal};
use crate::work::{works_search_url, works_url, Work};
use crate::ID;

verus! {

/// A calendar date as `chrono` represents it; carried through unchanged.
#[verifier::external_type_specification]
#[verifier::external_body]
pub struct ExNaiveDate(chrono::NaiveDate);

/// A composer, as the service lists them.
#[derive(Debug, Clone, PartialEq, Eq)]
pub struct Composer {
    pub id: ID,
    pub name: String,
    pub complete_name: String,
    pub birth: Option<chrono::NaiveDate>,
    pub death: Option<chrono::NaiveDate>,
    pub epoch: Epoch,
    /// Address of a portrait of the composer.
    pub portrait: String,
}

/// Address of the list of popular composers.
pub open spec fn popular_composers_url() -> Seq<char> {
    endpoint("/composer/list/pop"@)
}

/// Address of the list of essential composers.
pub open spec fn essential_composers_url() -> Seq<char> {
    endpoint("/composer/list/rec"@)
}

/// Address of the list of composers whose name starts with `letter`.
pub open spec fn composers_by_letter_url(letter: char) -> Seq<char> {
    endpoint("/composer/list/name/"@ + seq![letter])
}

/// Address of the list of composers of a period.
pub open spec fn composers_by_period_url(epoch: Epoch) -> Seq<char> {
    endpoint("/composer/list/epoch/"@ + epoch_str(epoch))
}

/// Address of the list of composers whose name matches `word`.
pub open spec fn composers_search_url(word: Seq<char>) -> Seq<char> {
    endpoint("/composer/list/search/"@ + word)
}

/// Address of the list that holds the composer `id`.
pub open spec fn composer_by_id_url(id: ID) -> Seq<char> {
    endpoint("/composer/list/ids/"@ + decimal(id as nat))
}

/// Relies on `String::push`: the character is appended at the end.
#[verifier::external_body]
fn push_char(s: &mut String, c: char)
    ensures
        final(s)@ == old(s)@.push(c),
{
    s.push(c)
}

impl Composer {
    /// Address of the list of popular composers.
    pub fn list_popular_url() -> (r: String)
        ensures
            r@ == popular_composers_url(),
    {
        let mut r = start_url("/composer/list/pop");
        finish_url(&mut r);
        r
    }

    /// Address of the list of essential composers.
    pub fn list_essential_url() -> (r: String)
        ensures
            r@ == essential_composers_url(),
    {
        let mut r = start_url("/composer/list/rec");
        finish_url(&mut r);
        r
    }

    /// Address of the list of composers whose name starts with `first_letter`.
    pub fn list_by_first_letter_url(first_letter: char) -> (r: String)
        ensures
            r@ == composers_by_letter_url(first_letter),
    {
        let mut r = start_url("/composer/list/name/");
        push_char(&mut r, first_letter);
        finish_url(&mut r);
        assert(r@ =~= composers_by_letter_url(first_letter));
        r
    }

    /// Address of the list of composers of the period `epoch`.
    pub fn list_by_period_url(epoch: Epoch) -> (r: String)
        ensures
            r@ == composers_by_period_url(epoch),
    {
        let mut r = start_url("/composer/list/epoch/");
        r.append(epoch.into_url_str());
        finish_url(&mut r);
        assert(r@ =~= composers_by_period_url(epoch));
        r
    }

    /// Address of the list of composers whose name matches `word`, which is
    /// put into the path as it is.
    pub fn search_url(word: &str) -> (r: String)
        ensures
            r@ == composers_search_url(word@),
    {
        let mut r = start_url("/composer/list/search/");
        r.append(word);
        finish_url(&mut r);
        assert(r@ =~= composers_search_url(word@));
        r
    }

    /// Address of the list that holds the composer `id`.
    pub fn get_by_id_url(id: ID) -> (r: String)
        ensures
            r@ == composer_by_id_url(id),
    {
        let mut r = start_url("/composer/list/ids/");
        push_decimal(&mut r, id);
        finish_url(&mut r);
        assert(r@ =~= composer_by_id_url(id));
        r
    }

    /// The composer of a lookup by identifier: the first of the listed
    /// composers. A lookup that listed none gives `MissingPayload`; an error
    /// is passed on as it is.
    pub fn first_of(list: OpenOpusResult<Vec<Composer>>) -> (r: OpenOpusResult<Composer>)
        ensures
            match list {
                Ok(v) => if v@.len() > 0 {
                    r == Ok::<Composer, OpenOpusError>(v@[0])
                } else {
                    r matches Err(OpenOpusError::MissingPayload)
                },
                Err(e) => r == Err::<Composer, OpenOpusError>(e),
            },
    {
        match list {
            Ok(mut v) => if v.len() > 0 {
                Ok(v.remove(0))
            } else {
                Err(OpenOpusError::MissingPayload)
            },
            Err(e) => Err(e),
        }
    }

    /// Address of the genres in which this composer wrote.
    pub fn genres_url(&self) -> (r: String)
        ensures
            r@ == genres_of_composer_url(self.id),
    {
        Genre::list_by_composer_id_url(self.id)
    }

    /// Address of all works of this composer.
    pub fn works_url(&self) -> (r: String)
        ensures
            r@ == works_url(self.id, Genre::All),
    {
        Work::list_by_composer_id_and_genre_url(self.id, Genre::All)
    }

    /// Address of the popular works of this composer.
    pub fn popular_works_url(&self) -> (r: String)
        ensures
            r@ == works_url(self.id, Genre::Popular),
    {
        Work::list_by_composer_id_and_genre_url(self.id, Genre::Popular)
    }

    /// Address of the recommended works of this composer.
    pub fn recommended_works_url(&self) -> (r: String)
        ensures
            r@ == works_url(self.id, Genre::Recommended),
    {
        Work::list_by_composer_id_and_genre_url(self.id, Genre::Recommended)
    }

    /// Address of the works of this composer in `genre`.
    pub fn works_by_genre_url(&self, genre: Genre) -> (r: String)
        ensures
            r@ == works_url(self.id, genre),
    {
        Work::list_by_composer_id_and_genre_url(self.id, genre)
    }

    /// Address of the works of this composer that match `search_word`.
    pub fn search_works_url(&self, search_word: &str) -> (r: String)
        ensures
            r@ == works_search_url(self.id, Genre::All, search_word@),
    {
        Work::search_with_composer_id_and_genre_url(self.id, Genre::All, search_word)
    }

    /// Address of the works of this composer in `genre` that match `search_word`.
    pub fn search_works_with_genre_url(&self, search_word: &str, genre: Genre) -> (r: String)
        ensures
            r@ == works_search_url(self.id, genre, search_word@),
    {
        Work::search_with_composer_id_and_genre_url(self.id, genre, search_word)
    }
}

} // verus!
