use openopus::{Composer, Epoch, Genre, Work};

const ROOT: &str = "https://api.openopus.org";

fn sample_composer(id: u32) -> Composer {
    Composer {
        id,
        name: "Fauré".to_string(),
        complete_name: "Gabriel Fauré".to_string(),
        birth: None,
        death: None,
        epoch: Epoch::LateRomantic,
        portrait: "https://assets.openopus.org/portraits/faure.jpg".to_string(),
    }
}

#[test]
fn test_saerch_with_composer_id_and_genre() {
    assert_eq!(
        Work::search_with_composer_id_and_genre_url(145, Genre::Chamber, "Cello Sonata"),
        format!("{ROOT}/work/list/composer/145/genre/Chamber/search/Cello Sonata.json")
    );
}

#[test]
fn test_saerch_with_composer_id() {
    assert_eq!(
        Work::search_with_composer_id_and_genre_url(196, Genre::All, "Sonata"),
        format!("{ROOT}/work/list/composer/196/genre/all/search/Sonata.json")
    );
}

#[test]
fn work_test_list_by_composer_id() {
    assert_eq!(
        Work::list_by_composer_id_and_genre_url(130, Genre::All),
        format!("{ROOT}/work/list/composer/130/genre/all.json")
    );
}

#[test]
fn test_list_by_composer_id_and_genre() {
    assert_eq!(
        Work::list_by_composer_id_and_genre_url(2, Genre::Orchestral),
        format!("{ROOT}/work/list/composer/2/genre/Orchestral.json")
    );
}

#[test]
fn genre_test_list_by_composer_id() {
    assert_eq!(
        Genre::list_by_composer_id_url(180),
        format!("{ROOT}/genre/list/composer/180.json")
    );
}

#[test]
fn test_list_popular() {
    assert_eq!(Composer::list_popular_url(), format!("{ROOT}/composer/list/pop.json"));
}

#[test]
fn test_list_essential() {
    assert_eq!(Composer::list_essential_url(), format!("{ROOT}/composer/list/rec.json"));
}

#[test]
fn test_filter_by_first_letter() {
    assert_eq!(
        Composer::list_by_first_letter_url('A'),
        format!("{ROOT}/composer/list/name/A.json")
    );
    assert_eq!(
        Composer::list_by_first_letter_url('É'),
        format!("{ROOT}/composer/list/name/É.json")
    );
}

#[test]
fn test_filter_by_period() {
    let expected = [
        "Medieval",
        "Renaissance",
        "Baroque",
        "Classical",
        "Early Romantic",
        "Romantic",
        "Late Romantic",
        "20th Century",
        "Post-War",
        "21st Century",
    ];
    let all = Epoch::all();
    assert_eq!(all.len(), expected.len());
    for (epoch, segment) in all.into_iter().zip(expected) {
        assert_eq!(
            Composer::list_by_period_url(epoch),
            format!("{ROOT}/composer/list/epoch/{segment}.json")
        );
    }
}

#[test]
fn test_search() {
    assert_eq!(Composer::search_url("bruc"), format!("{ROOT}/composer/list/search/bruc.json"));
    assert_eq!(Composer::search_url(""), format!("{ROOT}/composer/list/search/.json"));
}

#[test]
fn get_by_id_url_writes_decimal() {
    assert_eq!(Composer::get_by_id_url(186), format!("{ROOT}/composer/list/ids/186.json"));
    assert_eq!(
        Composer::get_by_id_url(999999999),
        format!("{ROOT}/composer/list/ids/999999999.json")
    );
    assert_eq!(Composer::get_by_id_url(0), format!("{ROOT}/composer/list/ids/0.json"));
    assert_eq!(Composer::get_by_id_url(10), format!("{ROOT}/composer/list/ids/10.json"));
    assert_eq!(
        Composer::get_by_id_url(u32::MAX),
        format!("{ROOT}/composer/list/ids/4294967295.json")
    );
}

#[test]
fn composer_derived_urls_use_own_id() {
    let c = sample_composer(145);
    assert_eq!(c.genres_url(), format!("{ROOT}/genre/list/composer/145.json"));
    assert_eq!(c.works_url(), format!("{ROOT}/work/list/composer/145/genre/all.json"));
    assert_eq!(
        c.popular_works_url(),
        format!("{ROOT}/work/list/composer/145/genre/Popular.json")
    );
    assert_eq!(
        c.recommended_works_url(),
        format!("{ROOT}/work/list/composer/145/genre/Recommended.json")
    );
    assert_eq!(
        c.works_by_genre_url(Genre::Vocal),
        format!("{ROOT}/work/list/composer/145/genre/Vocal.json")
    );
    assert_eq!(
        c.search_works_url("Elegy"),
        format!("{ROOT}/work/list/composer/145/genre/all/search/Elegy.json")
    );
    assert_eq!(
        c.search_works_with_genre_url("Cello Sonata", Genre::Chamber),
        format!("{ROOT}/work/list/composer/145/genre/Chamber/search/Cello Sonata.json")
    );
}
