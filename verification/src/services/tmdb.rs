//! The film database: what is asked of it, and which of its entries a title stands for.

use vstd::prelude::*;

#[allow(unused_imports)]
use crate::call::{Call, CallView, Method};
use crate::config::Config;
#[allow(unused_imports)]
use crate::text::number::{decimal_i64, decimal_int, parse_i32, signed_value, within};
#[allow(unused_imports)]
use crate::text::{before_any, cat, copy_option, option_view, until};

verus! {

/// Where requests go.
pub const TMDB_BASE: &'static str = "https://api.themoviedb.org/3";

/// Where images are.
pub const TMDB_IMAGE_BASE: &'static str = "https://image.tmdb.org/t/p/w500";

// ---------------------------------------------------------------------------
// Entries
// ---------------------------------------------------------------------------

/// A film. `confidence` tells how reliable the entry is: it is ordered as the average vote times
/// the logarithm of the number of votes, or 1 where that is less than 1, are.
#[derive(Debug)]
pub struct TmdbMovie {
    pub id: i64,
    pub title: String,
    pub original_title: String,
    pub release_date: Option<String>,
    pub overview: Option<String>,
    pub poster_path: Option<String>,
    pub backdrop_path: Option<String>,
    pub confidence: i64,
}

/// A series. `confidence` is as for films.
#[derive(Debug)]
pub struct TmdbTv {
    pub id: i64,
    pub name: String,
    pub original_name: String,
    pub first_air_date: Option<String>,
    pub overview: Option<String>,
    pub poster_path: Option<String>,
    pub backdrop_path: Option<String>,
    pub confidence: i64,
}

/// A film or a series.
#[derive(Debug)]
pub enum TmdbResult {
    Movie(TmdbMovie),
    Tv(TmdbTv),
}

/// The year of a date: the number before its first hyphen.
pub open spec fn year_of(date: Option<Seq<char>>) -> Option<i32> {
    match date {
        Some(d) => match within(
            signed_value(before_any(d, "-"@)),
            i32::MIN as int,
            i32::MAX as int,
        ) {
            Some(n) => Some(n as i32),
            None => None,
        },
        None => None,
    }
}

/// The year of a date.
pub fn parse_year(date: &Option<String>) -> (r: Option<i32>)
    ensures
        r == year_of(option_view(*date)),
{
    match date {
        Some(d) => parse_i32(until(d.as_str(), "-").as_str()),
        None => None,
    }
}

/// Where the image with a path is. An empty path names none.
pub open spec fn image_at(path: Option<Seq<char>>) -> Option<Seq<char>> {
    match path {
        Some(p) => if p.len() == 0 {
            None
        } else {
            Some(TMDB_IMAGE_BASE@ + p)
        },
        None => None,
    }
}

/// Where the image with a path is.
fn image_url(path: &Option<String>) -> (r: Option<String>)
    ensures
        option_view(r) == image_at(option_view(*path)),
{
    match path {
        Some(p) => if p.as_str().is_empty() {
            None
        } else {
            Some(cat(TMDB_IMAGE_BASE, p.as_str()))
        },
        None => None,
    }
}

impl TmdbResult {
    /// The title.
    pub open spec fn title_text(self) -> Seq<char> {
        match self {
            TmdbResult::Movie(m) => m.title@,
            TmdbResult::Tv(t) => t.name@,
        }
    }

    /// The title in the language of origin.
    pub open spec fn original_text(self) -> Seq<char> {
        match self {
            TmdbResult::Movie(m) => m.original_title@,
            TmdbResult::Tv(t) => t.original_name@,
        }
    }

    /// When it first came out.
    pub open spec fn date(self) -> Option<Seq<char>> {
        match self {
            TmdbResult::Movie(m) => option_view(m.release_date),
            TmdbResult::Tv(t) => option_view(t.first_air_date),
        }
    }

    /// What it is about.
    pub open spec fn overview_text(self) -> Option<Seq<char>> {
        match self {
            TmdbResult::Movie(m) => option_view(m.overview),
            TmdbResult::Tv(t) => option_view(t.overview),
        }
    }

    /// The path of its poster.
    pub open spec fn poster(self) -> Option<Seq<char>> {
        match self {
            TmdbResult::Movie(m) => option_view(m.poster_path),
            TmdbResult::Tv(t) => option_view(t.poster_path),
        }
    }

    /// The path of its backdrop.
    pub open spec fn backdrop(self) -> Option<Seq<char>> {
        match self {
            TmdbResult::Movie(m) => option_view(m.backdrop_path),
            TmdbResult::Tv(t) => option_view(t.backdrop_path),
        }
    }

    /// Its number in the database.
    pub open spec fn id(self) -> i64 {
        match self {
            TmdbResult::Movie(m) => m.id,
            TmdbResult::Tv(t) => t.id,
        }
    }

    /// The name of its kind.
    pub open spec fn kind(self) -> Seq<char> {
        match self {
            TmdbResult::Movie(_) => "movie"@,
            TmdbResult::Tv(_) => "tv"@,
        }
    }

    /// The title.
    pub fn title(&self) -> (r: &str)
        ensures
            r@ == self.title_text(),
    {
        match self {
            TmdbResult::Movie(m) => m.title.as_str(),
            TmdbResult::Tv(t) => t.name.as_str(),
        }
    }

    /// The title in the language of origin.
    pub fn original_title(&self) -> (r: &str)
        ensures
            r@ == self.original_text(),
    {
        match self {
            TmdbResult::Movie(m) => m.original_title.as_str(),
            TmdbResult::Tv(t) => t.original_name.as_str(),
        }
    }

    /// The year in which it first came out.
    pub fn year(&self) -> (r: Option<i32>)
        ensures
            r == year_of(self.date()),
    {
        match self {
            TmdbResult::Movie(m) => parse_year(&m.release_date),
            TmdbResult::Tv(t) => parse_year(&t.first_air_date),
        }
    }

    /// What it is about.
    pub fn overview(&self) -> (r: Option<String>)
        ensures
            option_view(r) == self.overview_text(),
    {
        match self {
            TmdbResult::Movie(m) => copy_option(&m.overview),
            TmdbResult::Tv(t) => copy_option(&t.overview),
        }
    }

    /// Where its poster is.
    pub fn poster_url(&self) -> (r: Option<String>)
        ensures
            option_view(r) == image_at(self.poster()),
    {
        match self {
            TmdbResult::Movie(m) => image_url(&m.poster_path),
            TmdbResult::Tv(t) => image_url(&t.poster_path),
        }
    }

    /// Where its backdrop is.
    pub fn backdrop_url(&self) -> (r: Option<String>)
        ensures
            option_view(r) == image_at(self.backdrop()),
    {
        match self {
            TmdbResult::Movie(m) => image_url(&m.backdrop_path),
            TmdbResult::Tv(t) => image_url(&t.backdrop_path),
        }
    }

    /// Its number in the database.
    pub fn tmdb_id(&self) -> (r: i64)
        ensures
            r == self.id(),
    {
        match self {
            TmdbResult::Movie(m) => m.id,
            TmdbResult::Tv(t) => t.id,
        }
    }

    /// The name of its kind.
    pub fn media_type(&self) -> (r: &'static str)
        ensures
            r@ == self.kind(),
    {
        match self {
            TmdbResult::Movie(_) => "movie",
            TmdbResult::Tv(_) => "tv",
        }
    }
}

// ---------------------------------------------------------------------------
// Requests
// ---------------------------------------------------------------------------

/// Access to the database.
#[derive(Debug)]
pub struct TmdbClient {
    pub api_key: String,
    pub language: String,
}

/// The year to search for, under the name that the kind of search has for it.
pub open spec fn year_pair(name: Seq<char>, year: Option<i32>) -> Seq<(Seq<char>, Seq<char>)> {
    match year {
        Some(y) => seq![(name, decimal_int(y as int))],
        None => Seq::empty(),
    }
}

impl TmdbClient {
    /// A request to a path of the database.
    pub open spec fn asked(self, path: Seq<char>, extra: Seq<(Seq<char>, Seq<char>)>) -> CallView {
        CallView {
            method: Method::Get,
            url: TMDB_BASE@ + path,
            pairs: seq![("api_key"@, self.api_key@), ("language"@, self.language@)] + extra,
        }
    }

    /// Access with the configured key. There is none without a key.
    pub fn new(config: &Config) -> (r: Result<Self, String>)
        ensures
            match r {
                Ok(c) => config.tmdb_api_key@.len() > 0 && c.api_key@ == config.tmdb_api_key@
                    && c.language@ == config.tmdb_language@,
                Err(e) => config.tmdb_api_key@.len() == 0 && e@ == "TMDB API Key 未配置"@,
            },
    {
        if config.tmdb_api_key.as_str().is_empty() {
            return Err("TMDB API Key 未配置".to_string());
        }
        Ok(
            TmdbClient {
                api_key: config.tmdb_api_key.clone(),
                language: config.tmdb_language.clone(),
            },
        )
    }

    /// A request to a path of the database.
    fn get(&self, path: &str) -> (r: Call)
        ensures
            r@ == self.asked(path@, Seq::empty()),
    {
        let r = Call::new(Method::Get, cat(TMDB_BASE, path)).with(
            "api_key",
            self.api_key.as_str(),
        ).with("language", self.language.as_str());
        assert(r@.pairs =~= self.asked(path@, Seq::empty()).pairs);
        r
    }

    /// Asks for what has a title and, where it is known, came out in a year.
    fn search(&self, path: &str, title: &str, year_name: &str, year: Option<i32>) -> (r: Call)
        ensures
            r@ == self.asked(path@, seq![("query"@, title@)] + year_pair(year_name@, year)),
    {
        let asked = self.get(path).with("query", title);
        let r = match year {
            Some(y) => asked.with(year_name, decimal_i64(y as i64).as_str()),
            None => asked,
        };
        assert(r@.pairs =~= self.asked(
            path@,
            seq![("query"@, title@)] + year_pair(year_name@, year),
        ).pairs);
        r
    }

    /// Asks for films with a title.
    pub fn search_movie(&self, title: &str, year: Option<i32>) -> (r: Call)
        ensures
            r@ == self.asked(
                "/search/movie"@,
                seq![("query"@, title@)] + year_pair("year"@, year),
            ),
    {
        self.search("/search/movie", title, "year", year)
    }

    /// Asks for series with a title.
    pub fn search_tv(&self, title: &str, year: Option<i32>) -> (r: Call)
        ensures
            r@ == self.asked(
                "/search/tv"@,
                seq![("query"@, title@)] + year_pair("first_air_date_year"@, year),
            ),
    {
        self.search("/search/tv", title, "first_air_date_year", year)
    }

    /// Asks for popular films.
    pub fn popular_movies(&self) -> (r: Call)
        ensures
            r@ == self.asked("/movie/popular"@, Seq::empty()),
    {
        self.get("/movie/popular")
    }

    /// Asks for films in cinemas.
    pub fn now_playing_movies(&self) -> (r: Call)
        ensures
            r@ == self.asked("/movie/now_playing"@, Seq::empty()),
    {
        self.get("/movie/now_playing")
    }

    /// Asks for films to come.
    pub fn upcoming_movies(&self) -> (r: Call)
        ensures
            r@ == self.asked("/movie/upcoming"@, Seq::empty()),
    {
        self.get("/movie/upcoming")
    }

    /// Asks for the best rated films.
    pub fn top_rated_movies(&self) -> (r: Call)
        ensures
            r@ == self.asked("/movie/top_rated"@, Seq::empty()),
    {
        self.get("/movie/top_rated")
    }

    /// Asks for popular series.
    pub fn popular_tv(&self) -> (r: Call)
        ensures
            r@ == self.asked("/tv/popular"@, Seq::empty()),
    {
        self.get("/tv/popular")
    }

    /// Asks for series on air today.
    pub fn airing_today_tv(&self) -> (r: Call)
        ensures
            r@ == self.asked("/tv/airing_today"@, Seq::empty()),
    {
        self.get("/tv/airing_today")
    }

    /// Asks for the best rated series.
    pub fn top_rated_tv(&self) -> (r: Call)
        ensures
            r@ == self.asked("/tv/top_rated"@, Seq::empty()),
    {
        self.get("/tv/top_rated")
    }

    /// Asks for a film.
    pub fn movie_detail(&self, tmdb_id: i64) -> (r: Call)
        ensures
            r@ == self.asked("/movie/"@ + decimal_int(tmdb_id as int), Seq::empty()),
    {
        self.get(cat("/movie/", decimal_i64(tmdb_id).as_str()).as_str())
    }

    /// Asks for a series.
    pub fn tv_detail(&self, tmdb_id: i64) -> (r: Call)
        ensures
            r@ == self.asked("/tv/"@ + decimal_int(tmdb_id as int), Seq::empty()),
    {
        self.get(cat("/tv/", decimal_i64(tmdb_id).as_str()).as_str())
    }

    /// Begins to look for what a title stands for. Nothing has an empty title.
    pub fn smart_search(&self, title: &str, year: Option<i32>) -> (r: Option<SmartSearch>)
        ensures
            match r {
                Some(s) => title@.len() > 0 && s.title@ == title@ && s.year == year,
                None => title@.len() == 0,
            },
    {
        if title.is_empty() {
            None
        } else {
            Some(SmartSearch { title: title.to_string(), year })
        }
    }
}

/// The first `limit` of a list.
pub fn truncated<T>(list: Vec<T>, limit: usize) -> (r: Vec<T>)
    ensures
        r@ == if limit < list@.len() {
            list@.take(limit as int)
        } else {
            list@
        },
{
    let mut list = list;
    list.truncate(limit);
    list
}

// ---------------------------------------------------------------------------
// Matching
// ---------------------------------------------------------------------------

/// The first of a list, if there is one.
pub open spec fn first_hit<T>(list: Seq<T>) -> Option<T> {
    if list.len() > 0 {
        Some(list[0])
    } else {
        None
    }
}

/// The first of a list, if there is one.
fn take_first<T>(list: Vec<T>) -> (r: Option<T>)
    ensures
        r == first_hit(list@),
{
    let mut list = list;
    if list.len() > 0 {
        Some(list.remove(0))
    } else {
        None
    }
}

/// What was found. A search that failed found nothing.
pub open spec fn found<T>(list: Option<Vec<T>>) -> Seq<T> {
    match list {
        Some(v) => v@,
        None => Seq::empty(),
    }
}

/// What a title stands for, by the films and the series that were found: the first film or the
/// first series, where only one kind was found; otherwise the more reliable of the two, the film
/// where they are alike.
pub open spec fn matched(movies: Seq<TmdbMovie>, shows: Seq<TmdbTv>) -> Option<TmdbResult> {
    match (first_hit(movies), first_hit(shows)) {
        (Some(m), None) => Some(TmdbResult::Movie(m)),
        (None, Some(t)) => Some(TmdbResult::Tv(t)),
        (Some(m), Some(t)) => if m.confidence >= t.confidence {
            Some(TmdbResult::Movie(m))
        } else {
            Some(TmdbResult::Tv(t))
        },
        (None, None) => None,
    }
}

/// What a title stands for, by what was found for it.
pub fn smart_search_with_year(
    movies: Option<Vec<TmdbMovie>>,
    shows: Option<Vec<TmdbTv>>,
) -> (r: Option<TmdbResult>)
    ensures
        r == matched(found(movies), found(shows)),
{
    let movie = match movies {
        Some(v) => take_first(v),
        None => None,
    };
    let show = match shows {
        Some(v) => take_first(v),
        None => None,
    };
    match (movie, show) {
        (Some(m), None) => Some(TmdbResult::Movie(m)),
        (None, Some(t)) => Some(TmdbResult::Tv(t)),
        (Some(m), Some(t)) => if m.confidence >= t.confidence {
            Some(TmdbResult::Movie(m))
        } else {
            Some(TmdbResult::Tv(t))
        },
        (None, None) => None,
    }
}

/// A search for what a title stands for, among films and series at once.
#[derive(Debug)]
pub struct SmartSearch {
    pub title: String,
    pub year: Option<i32>,
}

/// What a search comes to.
#[derive(Debug)]
pub enum SearchOutcome {
    /// It is over.
    Done(Option<TmdbResult>),
    /// Nothing came out in the year: search without it.
    Again(SmartSearch),
}

impl SmartSearch {
    /// Asks for films and for series.
    pub fn requests(&self, client: &TmdbClient) -> (r: (Call, Call))
        ensures
            r.0@ == client.asked(
                "/search/movie"@,
                seq![("query"@, self.title@)] + year_pair("year"@, self.year),
            ),
            r.1@ == client.asked(
                "/search/tv"@,
                seq![("query"@, self.title@)] + year_pair("first_air_date_year"@, self.year),
            ),
    {
        (
            client.search_movie(self.title.as_str(), self.year),
            client.search_tv(self.title.as_str(), self.year),
        )
    }

    /// Takes in what was found. A search that found nothing in its year is made once more without
    /// the year.
    pub fn take(
        self,
        movies: Option<Vec<TmdbMovie>>,
        shows: Option<Vec<TmdbTv>>,
    ) -> (r: SearchOutcome)
        ensures
            match r {
                SearchOutcome::Done(result) => {
                    &&& result == matched(found(movies), found(shows))
                    &&& result is Some || self.year is None
                },
                SearchOutcome::Again(next) => {
                    &&& found(movies).len() == 0
                    &&& found(shows).len() == 0
                    &&& self.year is Some
                    &&& next.title == self.title
                    &&& next.year is None
                },
            },
    {
        let result = smart_search_with_year(movies, shows);
        if result.is_none() && self.year.is_some() {
            SearchOutcome::Again(SmartSearch { title: self.title, year: None })
        } else {
            SearchOutcome::Done(result)
        }
    }
}

/// What a title stands for is the first of what was found of its kind, and something comes out
/// wherever something was found.
pub proof fn matches_come_first(movies: Seq<TmdbMovie>, shows: Seq<TmdbTv>)
    ensures
        match matched(movies, shows) {
            Some(TmdbResult::Movie(m)) => movies.len() > 0 && movies[0] == m,
            Some(TmdbResult::Tv(t)) => shows.len() > 0 && shows[0] == t,
            None => movies.len() == 0 && shows.len() == 0,
        },
{
}

} // verus!
