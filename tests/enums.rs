use openopus::{decode_int_str_bool, Epoch, Genre};

#[test]
fn epoch_string_forms() {
    assert_eq!(Epoch::Medieval.into_url_str(), "Medieval");
    assert_eq!(Epoch::Renaissance.into_url_str(), "Renaissance");
    assert_eq!(Epoch::Baroque.into_url_str(), "Baroque");
    assert_eq!(Epoch::Classical.into_url_str(), "Classical");
    assert_eq!(Epoch::EarlyRomantic.into_url_str(), "Early Romantic");
    assert_eq!(Epoch::Romantic.into_url_str(), "Romantic");
    assert_eq!(Epoch::LateRomantic.into_url_str(), "Late Romantic");
    assert_eq!(Epoch::TwentiethCentury.into_url_str(), "20th Century");
    assert_eq!(Epoch::PostWar.into_url_str(), "Post-War");
    assert_eq!(Epoch::TwentyFirstCentury.into_url_str(), "21st Century");
}

#[test]
fn epoch_round_trip() {
    for e in Epoch::all() {
        assert_eq!(Epoch::from_url_str(e.into_url_str()), Some(e));
    }
    assert_eq!(Epoch::from_url_str("Early Romantic"), Some(Epoch::EarlyRomantic));
    assert_eq!(Epoch::from_url_str("EarlyRomantic"), None);
    assert_eq!(Epoch::from_url_str("romantic"), None);
    assert_eq!(Epoch::from_url_str(""), None);
}

#[test]
fn genre_string_forms() {
    assert_eq!(Genre::All.into_url_str(), "all");
    assert_eq!(Genre::Popular.into_url_str(), "Popular");
    assert_eq!(Genre::Recommended.into_url_str(), "Recommended");
    assert_eq!(Genre::Chamber.into_url_str(), "Chamber");
    assert_eq!(Genre::Keyboard.into_url_str(), "Keyboard");
    assert_eq!(Genre::Orchestral.into_url_str(), "Orchestral");
    assert_eq!(Genre::Stage.into_url_str(), "Stage");
    assert_eq!(Genre::Vocal.into_url_str(), "Vocal");
    assert_eq!(Genre::All.name(), "All");
    assert_eq!(Genre::Vocal.name(), "Vocal");
}

#[test]
fn genre_round_trip() {
    let all = Genre::all();
    assert_eq!(all.len(), 8);
    for g in all {
        assert_eq!(Genre::from_url_str(g.into_url_str()), Some(g));
        assert_eq!(Genre::from_name(g.name()), Some(g));
    }
    assert_eq!(Genre::from_url_str("All"), None);
    assert_eq!(Genre::from_name("all"), None);
    assert_eq!(Genre::from_name("Opera"), None);
}

#[test]
fn int_str_bool_decoding() {
    assert_eq!(decode_int_str_bool("0"), Some(false));
    assert_eq!(decode_int_str_bool("1"), Some(true));
    assert_eq!(decode_int_str_bool("2"), None);
    assert_eq!(decode_int_str_bool(""), None);
    assert_eq!(decode_int_str_bool("true"), None);
    assert_eq!(decode_int_str_bool("01"), None);
    assert_eq!(decode_int_str_bool(" 1"), None);
}
