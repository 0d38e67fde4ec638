use title_plugin_system::shiki::{
    title_from_anime, title_outcome, titles_outcome, SearchShikiAnimes, ShikiAnime, ShikiImage,
    ShikiParseError, ShikiUrl, ShikimoriApi,
};
use title_plugin_system::title::{Title, TitleImage};

fn url(s: &str) -> ShikiUrl {
    ShikiUrl(s.to_string())
}

fn image() -> ShikiImage {
    ShikiImage { original: url("o"), preview: url("p"), x96: url("96"), x48: url("48") }
}

fn summary(id: usize) -> SearchShikiAnimes {
    SearchShikiAnimes {
        id,
        name: "Jujutsu Kaisen".to_string(),
        russian: "Магическая битва".to_string(),
        image: image(),
        url: url("https://shikimori.one/animes/40748"),
        kind: Some("tv".to_string()),
        score: "8.6".to_string(),
        episodes: 24,
        episodes_aired: 24,
        aired_on: None,
        released_on: None,
    }
}

fn expected_image() -> TitleImage {
    TitleImage {
        original: Some("o".to_string()),
        preview: Some("p".to_string()),
        x96: Some("96".to_string()),
        x48: Some("48".to_string()),
    }
}

#[test]
fn test() {
    let api = ShikimoriApi::new().search_address("Jujutsu kaisen");
    assert_eq!(
        api,
        Some("https://shikimori.one/api/animes?search=Jujutsu%20kaisen&limit=50&censored=true".to_string())
    );
}

#[test]
fn site_path_drops_query_and_prefixes_site() {
    assert_eq!(
        ShikiUrl::from_site_path("/system/animes/original/40748.jpg?1700000000").0,
        "https://shikimori.one/system/animes/original/40748.jpg"
    );
    assert_eq!(ShikiUrl::from_site_path("/animes/1").0, "https://shikimori.one/animes/1");
    assert_eq!(ShikiUrl::from_site_path("?a?b").0, "https://shikimori.one");
    assert_eq!(ShikiUrl::from_site_path("").0, "https://shikimori.one");
}

#[test]
fn anime_address_has_decimal_id() {
    let api = ShikimoriApi::new();
    assert_eq!(api.anime_address(40748), "https://shikimori.one/api/animes/40748");
    assert_eq!(api.anime_address(0), "https://shikimori.one/api/animes/0");
    assert_eq!(api.anime_address(10), "https://shikimori.one/api/animes/10");
}

#[test]
fn mirror_applies_to_later_requests() {
    let mut api = ShikimoriApi::new();
    assert_eq!(api.mirror(), "https://shikimori.one/api");
    api.set_mirror("https://shikimori.me/api".to_string());
    assert_eq!(api.mirror(), "https://shikimori.me/api");
    assert_eq!(api.anime_address(5), "https://shikimori.me/api/animes/5");
    assert_eq!(
        api.season_address(),
        Some("https://shikimori.me/api/animes?limit=20&censored=true&season=summer_2024&order=popularity".to_string())
    );
}

#[test]
fn unparseable_base_gives_no_address() {
    let mut api = ShikimoriApi::new();
    api.set_mirror("not an address".to_string());
    assert_eq!(api.season_address(), None);
    assert_eq!(api.search_address("x"), None);
}

#[test]
fn report_texts() {
    assert_eq!(
        ShikiParseError::JsonParseError("bad".to_string()).report(),
        "error when get_title_with_id - 'JsonParseError'. bad"
    );
    assert_eq!(
        ShikiParseError::BodyParseError("cut".to_string()).report(),
        "error when get_title_with_id - 'BodyParseError'. cut"
    );
    assert_eq!(
        ShikiParseError::RequestError("down".to_string()).report(),
        "error when get_title_with_id - 'RequestError'. down"
    );
}

#[test]
fn summaries_become_titles_without_description() {
    let r = titles_outcome(Ok(vec![summary(1), summary(2)])).unwrap();
    assert_eq!(r.len(), 2);
    assert_eq!(
        r[0],
        Title {
            id: 1,
            eng_name: "Jujutsu Kaisen".to_string(),
            russian_name: "Магическая битва".to_string(),
            score: "8.6".to_string(),
            description: None,
            image: expected_image(),
            url: "https://shikimori.one/animes/40748".to_string(),
        }
    );
    assert_eq!(r[1].id, 2);
    assert_eq!(
        titles_outcome(Err(ShikiParseError::RequestError("down".to_string()))),
        Err("error when get_title_with_id - 'RequestError'. down".to_string())
    );
}

#[test]
fn full_record_keeps_description() {
    let s = summary(7);
    let anime = ShikiAnime {
        id: s.id,
        name: s.name.clone(),
        russian: s.russian.clone(),
        image: image(),
        url: s.url.clone(),
        kind: "tv".to_string(),
        score: "8.6".to_string(),
        episodes: 24,
        episodes_aired: 24,
        aired_on: None,
        released_on: None,
        rating: "pg_13".to_string(),
        english: vec![],
        japanese: vec![],
        synonyms: vec![],
        license_name_ru: None,
        duration: 24,
        description: Some("sorcerers".to_string()),
        description_html: None,
        description_source: None,
        franchise: None,
        favoured: false,
        anons: false,
        ongoing: false,
        myanimelist_id: 40748,
        updated_at: 1_700_000_000_000,
        next_episode_at: None,
        fansubbers: vec![],
        fandubbers: vec![],
        licensors: vec![],
        studios: vec![],
        videos: vec![],
        screenshots: vec![],
    };
    let t = title_from_anime(anime.clone());
    assert_eq!(t.id, 7);
    assert_eq!(t.description, Some("sorcerers".to_string()));
    assert_eq!(t.image, expected_image());
    assert_eq!(title_outcome(Ok(anime)), Ok(t));
    assert_eq!(
        title_outcome(Err(ShikiParseError::JsonParseError("eof".to_string()))),
        Err("error when get_title_with_id - 'JsonParseError'. eof".to_string())
    );
}
