use vstd::prelude::*;

use crate::text::str_eq;

verus! {

/// A historical period into which the service places every composer.
#[derive(Debug, Clone, Copy, PartialEq, Eq, Structural)]
pub enum Epoch {
    Medieval,
    Renaissance,
    Baroque,
    Classical,
    EarlyRomantic,
    Romantic,
    LateRomantic,
    TwentiethCentury,
    PostWar,
    TwentyFirstCentury,
}

/// The external string form of a period: the text the service uses for it,
/// both as a path segment and inside response bodies.
pub open spec fn epoch_str(e: Epoch) -> Seq<char> {
    match e {
        Epoch::Medieval => "Medieval"@,
        Epoch::Renaissance => "Renaissance"@,
        Epoch::Baroque => "Baroque"@,
        Epoch::Classical => "Classical"@,
        Epoch::EarlyRomantic => "Early Romantic"@,
        Epoch::Romantic => "Romantic"@,
        Epoch::LateRomantic => "Late Romantic"@,
        Epoch::TwentiethCentury => "20th Century"@,
        Epoch::PostWar => "Post-War"@,
        Epoch::TwentyFirstCentury => "21st Century"@,
    }
}

/// The period whose external string form is `s`, if there is one.
pub open spec fn epoch_from_str(s: Seq<char>) -> Option<Epoch> {
    if exists|e: Epoch| epoch_str(e) == s {
        Some(choose|e: Epoch| epoch_str(e) == s)
    } else {
        None
    }
}

proof fn reveal_epoch_strs()
    ensures
        forall|a: Epoch, b: Epoch| epoch_str(a) == epoch_str(b) ==> a == b,
{
    reveal_strlit("Medieval");
    reveal_strlit("Renaissance");
    reveal_strlit("Baroque");
    reveal_strlit("Classical");
    reveal_strlit("Early Romantic");
    reveal_strlit("Romantic");
    reveal_strlit("Late Romantic");
    reveal_strlit("20th Century");
    reveal_strlit("Post-War");
    reveal_strlit("21st Century");
    assert forall|a: Epoch, b: Epoch| epoch_str(a) == epoch_str(b) implies a == b by {
        if a != b {
            assert(epoch_str(a).len() != epoch_str(b).len() || epoch_str(a)[0] != epoch_str(b)[0]
                || epoch_str(a)[1] != epoch_str(b)[1]);
        }
    }
}

/// Distinct periods have distinct string forms, so reading a period back from
/// its string form gives the period again.
pub proof fn lemma_epoch_round_trip(e: Epoch)
    ensures
        epoch_from_str(epoch_str(e)) == Some(e),
        forall|f: Epoch| epoch_str(f) == epoch_str(e) ==> f == e,
{
    reveal_epoch_strs();
}

impl Epoch {
    /// Every period, in historical order.
    pub fn all() -> (r: Vec<Epoch>)
        ensures
            forall|e: Epoch| r@.contains(e),
            r@.len() == 10,
    {
        let r = vec![
            Epoch::Medieval,
            Epoch::Renaissance,
            Epoch::Baroque,
            Epoch::Classical,
            Epoch::EarlyRomantic,
            Epoch::Romantic,
            Epoch::LateRomantic,
            Epoch::TwentiethCentury,
            Epoch::PostWar,
            Epoch::TwentyFirstCentury,
        ];
        assert forall|e: Epoch| r@.contains(e) by {
            match e {
                Epoch::Medieval => assert(r@[0] == e),
                Epoch::Renaissance => assert(r@[1] == e),
                Epoch::Baroque => assert(r@[2] == e),
                Epoch::Classical => assert(r@[3] == e),
                Epoch::EarlyRomantic => assert(r@[4] == e),
                Epoch::Romantic => assert(r@[5] == e),
                Epoch::LateRomantic => assert(r@[6] == e),
                Epoch::TwentiethCentury => assert(r@[7] == e),
                Epoch::PostWar => assert(r@[8] == e),
                Epoch::TwentyFirstCentury => assert(r@[9] == e),
            }
        }
        r
    }

    /// The external string form of the period, used as a path segment.
    pub fn into_url_str(self) -> (r: &'static str)
        ensures
            r@ == epoch_str(self),
    {
        match self {
            Epoch::Medieval => "Medieval",
            Epoch::Renaissance => "Renaissance",
            Epoch::Baroque => "Baroque",
            Epoch::Classical => "Classical",
            Epoch::EarlyRomantic => "Early Romantic",
            Epoch::Romantic => "Romantic",
            Epoch::LateRomantic => "Late Romantic",
            Epoch::TwentiethCentury => "20th Century",
            Epoch::PostWar => "Post-War",
            Epoch::TwentyFirstCentury => "21st Century",
        }
    }

    /// The period whose external string form is `s`; `None` for any other text.
    pub fn from_url_str(s: &str) -> (r: Option<Epoch>)
        ensures
            r == epoch_from_str(s@),
    {
        proof {
            reveal_epoch_strs();
        }
        let all = Epoch::all();
        let mut i: usize = 0;
        while i < all.len()
            invariant
                all@.len() == 10,
                forall|e: Epoch| all@.contains(e),
                i <= all@.len(),
                forall|j: int| 0 <= j < i ==> epoch_str(#[trigger] all@[j]) != s@,
            decreases all@.len() - i,
        {
            let e = all[i];
            if str_eq(e.into_url_str(), s) {
                proof {
                    lemma_epoch_round_trip(e);
                    assert(epoch_str(e) == s@);
                }
                return Some(e);
            }
            i = i + 1;
        }
        assert forall|e: Epoch| epoch_str(e) != s@ by {
            assert(all@.contains(e));
        }
        None
    }
}

} // verus!
