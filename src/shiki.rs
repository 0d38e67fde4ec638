//! The pure parts of the catalog plugin for the Shikimori site: the records its
//! interface returns, how their links are made absolute, which addresses are asked
//! for, and how a response becomes the host's records or error text.
use vstd::prelude::*;

use crate::title::{Title, TitleImage};

verus! {

/// The site that relative links in responses point into.
pub open spec fn site_root() -> Seq<char> {
    "https://shikimori.one"@
}

/// The position of the first `'?'` in `s` at or after `from`, or the length of `s`
/// when there is none.
pub open spec fn query_mark_from(s: Seq<char>, from: int) -> int
    decreases s.len() - from,
{
    if from >= s.len() {
        s.len() as int
    } else if s[from] == '?' {
        from
    } else {
        query_mark_from(s, from + 1)
    }
}

/// `s` without its query: everything before the first `'?'`.
pub open spec fn without_query(s: Seq<char>) -> Seq<char> {
    s.subrange(0, query_mark_from(s, 0))
}

/// A link as the site's records hold it, made absolute.
#[derive(Debug, Clone, PartialEq, Eq)]
pub struct ShikiUrl(pub String);

impl ShikiUrl {
    /// Makes a site-relative link absolute: its query, from the first `'?'` on, is
    /// dropped and the site's address is put in front.
    pub fn from_site_path(raw: &str) -> (r: ShikiUrl)
        ensures
            r.0@ == site_root() + without_query(raw@),
    {
        let n = raw.unicode_len();
        let mut i: usize = 0;
        while i < n && raw.get_char(i) != '?'
            invariant
                n == raw@.len(),
                i <= n,
                query_mark_from(raw@, i as int) == query_mark_from(raw@, 0),
            decreases n - i,
        {
            i = i + 1;
        }
        proof {
            reveal_strlit("https://shikimori.one");
        }
        let mut res = "https://shikimori.one".to_owned();
        res.append(raw.substring_char(0, i));
        ShikiUrl(res)
    }
}

/// The pictures of a record, as absolute links.
#[derive(Debug, Clone, PartialEq, Eq)]
pub struct ShikiImage {
    pub original: ShikiUrl,
    pub preview: ShikiUrl,
    pub x96: ShikiUrl,
    pub x48: ShikiUrl,
}

/// A video attached to a record.
#[derive(Debug, Clone, PartialEq, Eq)]
pub struct ShikiVideo {
    pub id: usize,
    pub url: String,
    pub image_url: String,
    pub player_url: String,
    pub name: String,
    pub kind: String,
    pub hosting: String,
}

/// A screenshot attached to a record.
#[derive(Debug, Clone, PartialEq, Eq)]
pub struct ShikiScreenshot {
    pub original: ShikiUrl,
    pub preview: ShikiUrl,
}

/// A studio credited on a record.
#[derive(Debug, Clone, PartialEq, Eq)]
pub struct ShikiStudios {
    pub id: i32,
    pub name: String,
    pub filtered_name: String,
    pub real: bool,
    pub image: Option<String>,
}

/// The full record of one entry. Points in time are milliseconds since the Unix epoch.
#[derive(Debug, Clone, PartialEq, Eq)]
pub struct ShikiAnime {
    pub id: usize,
    pub name: String,
    pub russian: String,
    pub image: ShikiImage,
    pub url: ShikiUrl,
    pub kind: String,
    pub score: String,
    pub episodes: i32,
    pub episodes_aired: i32,
    pub aired_on: Option<String>,
    pub released_on: Option<String>,
    pub rating: String,
    pub english: Vec<Option<String>>,
    pub japanese: Vec<Option<String>>,
    pub synonyms: Vec<Option<String>>,
    pub license_name_ru: Option<String>,
    pub duration: i32,
    pub description: Option<String>,
    pub description_html: Option<String>,
    pub description_source: Option<String>,
    pub franchise: Option<String>,
    pub favoured: bool,
    pub anons: bool,
    pub ongoing: bool,
    pub myanimelist_id: i32,
    pub updated_at: i64,
    pub next_episode_at: Option<i64>,
    pub fansubbers: Vec<String>,
    pub fandubbers: Vec<String>,
    pub licensors: Vec<String>,
    pub studios: Vec<ShikiStudios>,
    pub videos: Vec<ShikiVideo>,
    pub screenshots: Vec<ShikiScreenshot>,
}

/// The short record that lists and searches return.
#[derive(Debug, Clone, PartialEq, Eq)]
pub struct SearchShikiAnimes {
    pub id: usize,
    pub name: String,
    pub russian: String,
    pub image: ShikiImage,
    pub url: ShikiUrl,
    pub kind: Option<String>,
    pub score: String,
    pub episodes: i32,
    pub episodes_aired: i32,
    pub aired_on: Option<String>,
    pub released_on: Option<String>,
}

/// How a request to the site failed.
#[derive(Debug, Clone, PartialEq, Eq)]
pub enum ShikiParseError {
    /// The body was not the expected structured record.
    JsonParseError(String),
    /// The body could not be read as text.
    BodyParseError(String),
    /// The request itself failed.
    RequestError(String),
}

/// The text by which a failure is reported to the host.
pub open spec fn report_text(e: ShikiParseError) -> Seq<char> {
    match e {
        ShikiParseError::JsonParseError(m) => "error when get_title_with_id - 'JsonParseError'. "@
            + m@,
        ShikiParseError::BodyParseError(m) => "error when get_title_with_id - 'BodyParseError'. "@
            + m@,
        ShikiParseError::RequestError(m) => "error when get_title_with_id - 'RequestError'. "@
            + m@,
    }
}

impl ShikiParseError {
    /// The text by which this failure is reported to the host: its kind, then its message.
    pub fn report(&self) -> (r: String)
        ensures
            r@ == report_text(*self),
    {
        match self {
            ShikiParseError::JsonParseError(m) => {
                let mut s = "error when get_title_with_id - 'JsonParseError'. ".to_owned();
                s.append(m.as_str());
                s
            },
            ShikiParseError::BodyParseError(m) => {
                let mut s = "error when get_title_with_id - 'BodyParseError'. ".to_owned();
                s.append(m.as_str());
                s
            },
            ShikiParseError::RequestError(m) => {
                let mut s = "error when get_title_with_id - 'RequestError'. ".to_owned();
                s.append(m.as_str());
                s
            },
        }
    }
}

/// The host's picture record for a site record's pictures: every link present.
pub open spec fn title_image(i: ShikiImage) -> TitleImage {
    TitleImage {
        original: Some(i.original.0),
        preview: Some(i.preview.0),
        x96: Some(i.x96.0),
        x48: Some(i.x48.0),
    }
}

/// The host's record for a full site record, description included.
pub open spec fn full_title(a: ShikiAnime) -> Title {
    Title {
        id: a.id,
        eng_name: a.name,
        russian_name: a.russian,
        score: a.score,
        description: a.description,
        image: title_image(a.image),
        url: a.url.0,
    }
}

/// The host's record for a short site record: a summary, so without description.
pub open spec fn summary_title(a: SearchShikiAnimes) -> Title {
    Title {
        id: a.id,
        eng_name: a.name,
        russian_name: a.russian,
        score: a.score,
        description: None,
        image: title_image(a.image),
        url: a.url.0,
    }
}

fn image_of(i: &ShikiImage) -> (r: TitleImage)
    ensures
        r == title_image(*i),
{
    TitleImage {
        original: Some(i.original.0.clone()),
        preview: Some(i.preview.0.clone()),
        x96: Some(i.x96.0.clone()),
        x48: Some(i.x48.0.clone()),
    }
}

/// The host's record for a full site record.
pub fn title_from_anime(anime: ShikiAnime) -> (r: Title)
    ensures
        r == full_title(anime),
{
    let image = image_of(&anime.image);
    Title {
        id: anime.id,
        eng_name: anime.name,
        russian_name: anime.russian,
        score: anime.score,
        description: anime.description,
        image,
        url: anime.url.0,
    }
}

/// The host's record for a short site record.
pub fn title_from_summary(a: &SearchShikiAnimes) -> (r: Title)
    ensures
        r == summary_title(*a),
{
    Title {
        id: a.id,
        eng_name: a.name.clone(),
        russian_name: a.russian.clone(),
        score: a.score.clone(),
        description: None,
        image: image_of(&a.image),
        url: a.url.0.clone(),
    }
}

/// The host's records for a list of short site records, in the same order.
pub fn titles_from_summaries(list: &Vec<SearchShikiAnimes>) -> (r: Vec<Title>)
    ensures
        r@ == list@.map_values(|a: SearchShikiAnimes| summary_title(a)),
{
    let mut out: Vec<Title> = Vec::new();
    let mut i: usize = 0;
    while i < list.len()
        invariant
            i <= list@.len(),
            out@ == list@.subrange(0, i as int).map_values(|a: SearchShikiAnimes| summary_title(a)),
        decreases list@.len() - i,
    {
        out.push(title_from_summary(&list[i]));
        i = i + 1;
        assert(out@ =~= list@.subrange(0, i as int).map_values(
            |a: SearchShikiAnimes| summary_title(a),
        ));
    }
    assert(list@.subrange(0, i as int) =~= list@);
    out
}

/// What the plugin answers for a request for one entry: the entry's record, or the
/// failure's report text.
pub fn title_outcome(fetched: Result<ShikiAnime, ShikiParseError>) -> (r: Result<Title, String>)
    ensures
        match fetched {
            Ok(a) => r == Ok::<Title, String>(full_title(a)),
            Err(e) => r is Err && r->Err_0@ == report_text(e),
        },
{
    match fetched {
        Ok(a) => Ok(title_from_anime(a)),
        Err(e) => Err(e.report()),
    }
}

/// What the plugin answers for a list or a search: the records in the order the site
/// gave them, or the failure's report text.
pub fn titles_outcome(fetched: Result<Vec<SearchShikiAnimes>, ShikiParseError>) -> (r: Result<
    Vec<Title>,
    String,
>)
    ensures
        match fetched {
            Ok(list) => r is Ok && r->Ok_0@ == list@.map_values(
                |a: SearchShikiAnimes| summary_title(a),
            ),
            Err(e) => r is Err && r->Err_0@ == report_text(e),
        },
{
    match fetched {
        Ok(list) => Ok(titles_from_summaries(&list)),
        Err(e) => Err(e.report()),
    }
}

/// The decimal digits, in order of value.
pub open spec fn digit_chars() -> Seq<char> {
    seq!['0', '1', '2', '3', '4', '5', '6', '7', '8', '9']
}

/// The decimal numeral of `n`, without leading zeros.
pub open spec fn decimal(n: nat) -> Seq<char>
    decreases n,
{
    if n < 10 {
        seq![digit_chars()[n as int]]
    } else {
        decimal(n / 10).push(digit_chars()[(n % 10) as int])
    }
}

fn decimal_text(n: usize) -> (r: String)
    ensures
        r@ == decimal(n as nat),
    decreases n,
{
    let digits = "0123456789";
    proof {
        reveal_strlit("0123456789");
        assert(digits@ =~= digit_chars());
    }
    let d = n % 10;
    let one = digits.substring_char(d, d + 1);
    assert(one@ =~= seq![digit_chars()[d as int]]);
    if n < 10 {
        one.to_owned()
    } else {
        let mut s = decimal_text(n / 10);
        s.append(one);
        s
    }
}

/// What `url::Url::parse` makes of a text: `None` where it refuses it, else the address
/// in the serialized form the url crate gives it.
pub uninterp spec fn url_serialization(s: Seq<char>) -> Option<Seq<char>>;

/// Relies on `url::Url::parse` and `url::Url::as_str`: the parse either fails or gives an
/// address whose serialized text depends on the input text alone.
#[verifier::external_body]
fn parse_url(s: &str) -> (r: Option<String>)
    ensures
        match r {
            Some(u) => url_serialization(s@) == Some(u@),
            None => url_serialization(s@) is None,
        },
{
    match url::Url::parse(s) {
        Ok(u) => Some(u.as_str().to_string()),
        Err(_) => None,
    }
}

/// The address requests go to unless a mirror is set.
pub open spec fn default_base() -> Seq<char> {
    "https://shikimori.one/api"@
}

/// The unparsed address of a search for `query` under `base`.
pub open spec fn search_text(base: Seq<char>, query: Seq<char>) -> Seq<char> {
    base + "/animes?search="@ + query + "&limit=50&censored=true"@
}

/// The unparsed address of the current season's list under `base`.
pub open spec fn season_text(base: Seq<char>) -> Seq<char> {
    base + "/animes?limit=20&censored=true&season=summer_2024&order=popularity"@
}

/// The address of one entry's full record under `base`.
pub open spec fn anime_text(base: Seq<char>, id: nat) -> Seq<char> {
    base + "/animes/"@ + decimal(id)
}

/// The site's programming interface as seen from the plugin: where requests go.
pub struct ShikimoriApi {
    url: String,
}

impl ShikimoriApi {
    /// The base address that requests go to.
    pub closed spec fn base(&self) -> Seq<char> {
        self.url@
    }

    /// An interface aimed at the site itself.
    pub fn new() -> (r: ShikimoriApi)
        ensures
            r.base() == default_base(),
    {
        ShikimoriApi { url: "https://shikimori.one/api".to_owned() }
    }

    /// Sends every later request to `mirror` instead.
    pub fn set_mirror(&mut self, mirror: String)
        ensures
            final(self).base() == mirror@,
    {
        self.url = mirror;
    }

    /// The base address that requests go to.
    pub fn mirror(&self) -> (r: &str)
        ensures
            r@ == self.base(),
    {
        self.url.as_str()
    }

    /// The address of the full record of entry `id`.
    pub fn anime_address(&self, id: usize) -> (r: String)
        ensures
            r@ == anime_text(self.base(), id as nat),
    {
        let mut s = self.url.clone();
        s.append("/animes/");
        let n = decimal_text(id);
        s.append(n.as_str());
        s
    }

    /// The address of a search for `search`, as the url crate serializes it; `None`
    /// where the url crate refuses the text.
    pub fn search_address(&self, search: &str) -> (r: Option<String>)
        ensures
            match r {
                Some(u) => url_serialization(search_text(self.base(), search@)) == Some(u@),
                None => url_serialization(search_text(self.base(), search@)) is None,
            },
    {
        let mut s = self.url.clone();
        s.append("/animes?search=");
        s.append(search);
        s.append("&limit=50&censored=true");
        parse_url(s.as_str())
    }

    /// The address of the current season's list, as the url crate serializes it; `None`
    /// where the url crate refuses the text.
    pub fn season_address(&self) -> (r: Option<String>)
        ensures
            match r {
                Some(u) => url_serialization(season_text(self.base())) == Some(u@),
                None => url_serialization(season_text(self.base())) is None,
            },
    {
        let mut s = self.url.clone();
        s.append("/animes?limit=20&censored=true&season=summer_2024&order=popularity");
        parse_url(s.as_str())
    }
}

} // verus!
