//! Laws of looking films and series up in the database.

use vstd::prelude::*;

#[allow(unused_imports)]
use crate::call::{Call, Method};
#[allow(unused_imports)]
use crate::config::Config;
#[allow(unused_imports)]
use crate::services::tmdb::{
    found, image_at, matched, truncated, year_of, SearchOutcome, SmartSearch, TmdbClient, TmdbMovie,
    TmdbResult, TmdbTv,
};
#[allow(unused_imports)]
use crate::text::number::{decimal, decimal_int, decimal_is_read_back, is_digit};
#[allow(unused_imports)]
use crate::text::{lemma_stop_from, option_view, stop_from};
#[allow(unused_imports)]
use crate::workers::import_plan::first_series;

verus! {

/// What a request to the database holds: the key and the language in front, whatever is asked for.
pub open spec fn is_request(r: Call, client: TmdbClient, path: Seq<char>) -> bool {
    &&& r@.method == Method::Get
    &&& r@.url == "https://api.themoviedb.org/3"@ + path
    &&& r@.pairs.len() >= 2
    &&& r@.pairs[0] == ("api_key"@, client.api_key@)
    &&& r@.pairs[1] == ("language"@, client.language@)
}

/// Films are searched for by title, and series too; the year is handed over where there is one,
/// under the name that each of the two searches has for it.
pub proof fn searches_ask_for_title_and_year(
    client: &TmdbClient,
    title: &str,
    year: Option<i32>,
    film: Call,
    series: Call,
)
    requires
        call_ensures(TmdbClient::search_movie, (client, title, year), film),
        call_ensures(TmdbClient::search_tv, (client, title, year), series),
    ensures
        is_request(film, *client, "/search/movie"@),
        is_request(series, *client, "/search/tv"@),
        film@.pairs[2] == ("query"@, title@),
        series@.pairs[2] == ("query"@, title@),
        year is None ==> film@.pairs.len() == 3 && series@.pairs.len() == 3,
        year matches Some(y) ==> {
            &&& film@.pairs.len() == 4 && film@.pairs[3] == ("year"@, decimal_int(y as int))
            &&& series@.pairs.len() == 4 && series@.pairs[3] == (
                "first_air_date_year"@,
                decimal_int(y as int),
            )
        },
{
}

/// Each list of the database, and each entry in it, has a path of its own, and is asked for with
/// the key and the language alone.
pub proof fn lists_have_their_paths(
    client: &TmdbClient,
    popular: Call,
    playing: Call,
    upcoming: Call,
    rated: Call,
    popular_series: Call,
    airing: Call,
    rated_series: Call,
)
    requires
        call_ensures(TmdbClient::popular_movies, (client,), popular),
        call_ensures(TmdbClient::now_playing_movies, (client,), playing),
        call_ensures(TmdbClient::upcoming_movies, (client,), upcoming),
        call_ensures(TmdbClient::top_rated_movies, (client,), rated),
        call_ensures(TmdbClient::popular_tv, (client,), popular_series),
        call_ensures(TmdbClient::airing_today_tv, (client,), airing),
        call_ensures(TmdbClient::top_rated_tv, (client,), rated_series),
    ensures
        is_request(popular, *client, "/movie/popular"@) && popular@.pairs.len() == 2,
        is_request(playing, *client, "/movie/now_playing"@) && playing@.pairs.len() == 2,
        is_request(upcoming, *client, "/movie/upcoming"@) && upcoming@.pairs.len() == 2,
        is_request(rated, *client, "/movie/top_rated"@) && rated@.pairs.len() == 2,
        is_request(popular_series, *client, "/tv/popular"@) && popular_series@.pairs.len() == 2,
        is_request(airing, *client, "/tv/airing_today"@) && airing@.pairs.len() == 2,
        is_request(rated_series, *client, "/tv/top_rated"@) && rated_series@.pairs.len() == 2,
{
}

/// An entry of the database is asked for by its number.
pub proof fn entries_are_asked_for_by_number(client: &TmdbClient, id: i64, film: Call, series: Call)
    requires
        call_ensures(TmdbClient::movie_detail, (client, id), film),
        call_ensures(TmdbClient::tv_detail, (client, id), series),
    ensures
        is_request(film, *client, "/movie/"@ + decimal_int(id as int)) && film@.pairs.len() == 2,
        is_request(series, *client, "/tv/"@ + decimal_int(id as int)) && series@.pairs.len() == 2,
{
}

/// There is a client exactly if there is a key; it asks with the configured key and language.
pub proof fn clients_need_a_key(config: &Config, r: Result<TmdbClient, String>)
    requires
        call_ensures(TmdbClient::new, (config,), r),
    ensures
        r is Ok <==> config.tmdb_api_key@.len() > 0,
        r matches Ok(c) ==> c.api_key@ == config.tmdb_api_key@ && c.language@
            == config.tmdb_language@,
{
}

/// The best match is the first film or the first series: the series exactly if there is no film, or
/// if the film is less sure than the series.
pub proof fn the_surer_match_is_taken(movies: Seq<TmdbMovie>, shows: Seq<TmdbTv>)
    ensures
        matched(movies, shows) is None <==> movies.len() == 0 && shows.len() == 0,
        movies.len() > 0 && shows.len() == 0 ==> matched(movies, shows) == Some(
            TmdbResult::Movie(movies[0]),
        ),
        movies.len() == 0 && shows.len() > 0 ==> matched(movies, shows) == Some(
            TmdbResult::Tv(shows[0]),
        ),
        movies.len() > 0 && shows.len() > 0 && movies[0].confidence >= shows[0].confidence
            ==> matched(movies, shows) == Some(TmdbResult::Movie(movies[0])),
        movies.len() > 0 && shows.len() > 0 && movies[0].confidence < shows[0].confidence
            ==> matched(movies, shows) == Some(TmdbResult::Tv(shows[0])),
{
}

/// A search that finds nothing in a year goes on without the year, with the same title, and once
/// only; every other search is over with the best match.
pub proof fn searches_go_on_without_the_year(
    search: SmartSearch,
    movies: Option<Vec<TmdbMovie>>,
    shows: Option<Vec<TmdbTv>>,
    r: SearchOutcome,
)
    requires
        call_ensures(SmartSearch::take, (search, movies, shows), r),
    ensures
        r is Again <==> matched(found(movies), found(shows)) is None && search.year is Some,
        r matches SearchOutcome::Again(next) ==> next.title@ == search.title@ && next.year is None,
        r matches SearchOutcome::Done(best) ==> best == matched(found(movies), found(shows)),
        found(movies) == match movies {
            Some(v) => v@,
            None => Seq::empty(),
        },
        found(shows) == match shows {
            Some(v) => v@,
            None => Seq::empty(),
        },
{
}

/// A search for a series takes the first one that is found.
pub proof fn the_first_series_is_taken(shows: Option<Vec<TmdbTv>>, r: Option<TmdbResult>)
    requires
        call_ensures(first_series, (shows,), r),
    ensures
        r is Some <==> shows is Some && shows->0@.len() > 0,
        r is Some ==> r == Some(TmdbResult::Tv(shows->0@[0])),
{
}

/// What an entry tells: each accessor tells of a film and of a series what stands in the field of
/// that name.
pub proof fn entries_tell_their_fields(m: TmdbMovie, t: TmdbTv)
    ensures
        TmdbResult::Movie(m).title_text() == m.title@,
        TmdbResult::Movie(m).original_text() == m.original_title@,
        TmdbResult::Movie(m).date() == option_view(m.release_date),
        TmdbResult::Movie(m).overview_text() == option_view(m.overview),
        TmdbResult::Movie(m).poster() == option_view(m.poster_path),
        TmdbResult::Movie(m).backdrop() == option_view(m.backdrop_path),
        TmdbResult::Movie(m).id() == m.id,
        TmdbResult::Movie(m).kind() == seq!['m', 'o', 'v', 'i', 'e'],
        TmdbResult::Tv(t).title_text() == t.name@,
        TmdbResult::Tv(t).original_text() == t.original_name@,
        TmdbResult::Tv(t).date() == option_view(t.first_air_date),
        TmdbResult::Tv(t).overview_text() == option_view(t.overview),
        TmdbResult::Tv(t).poster() == option_view(t.poster_path),
        TmdbResult::Tv(t).backdrop() == option_view(t.backdrop_path),
        TmdbResult::Tv(t).id() == t.id,
        TmdbResult::Tv(t).kind() == seq!['t', 'v'],
{
    reveal_strlit("movie");
    reveal_strlit("tv");
    assert("movie"@ =~= seq!['m', 'o', 'v', 'i', 'e']);
    assert("tv"@ =~= seq!['t', 'v']);
}

/// The year of a date is the number in front of its first hyphen; what begins with no number has no
/// year.
pub proof fn dates_begin_with_the_year(year: nat, rest: Seq<char>)
    requires
        year <= i32::MAX,
    ensures
        year_of(Some(decimal(year) + seq!['-'] + rest)) == Some(year as i32),
        year_of(Some(decimal(year))) == Some(year as i32),
        year_of(Some(seq!['-'] + rest)) is None,
        year_of(Some(Seq::empty())) is None,
        year_of(None) is None,
{
    reveal_strlit("-");
    let stops = "-"@;
    assert(stops =~= seq!['-']);
    assert(stops[0] == '-');
    let d = decimal(year);
    decimal_is_read_back(year);
    assert(is_digit(d[0]));
    let s = d + seq!['-'] + rest;
    lemma_stop_from(s, stops, 0);
    lemma_stop_from(d, stops, 0);
    let k = stop_from(s, stops, 0);
    assert(s[d.len() as int] == '-');
    assert(stops.contains('-'));
    if k < d.len() {
        assert(s[k] == d[k]);
        assert(is_digit(d[k]));
    }
    assert(k == d.len());
    assert(s.take(k) =~= d);
    let j = stop_from(d, stops, 0);
    if j < d.len() {
        assert(is_digit(d[j]));
    }
    assert(d.take(j) =~= d);
    let none = seq!['-'] + rest;
    assert(none[0] == '-');
    lemma_stop_from(none, stops, 0);
    let z = stop_from(none, stops, 0);
    if z > 0 {
        assert(!stops.contains(none[0]));
    }
    assert(none.take(0) =~= Seq::<char>::empty());
    lemma_stop_from(Seq::empty(), stops, 0);
    assert(Seq::<char>::empty().take(0) =~= Seq::<char>::empty());
}

/// Images stand under one address; where there is no path there is no image.
pub proof fn images_stand_under_one_address(path: Seq<char>)
    ensures
        path.len() > 0 ==> image_at(Some(path)) == Some("https://image.tmdb.org/t/p/w500"@ + path),
        path.len() == 0 ==> image_at(Some(path)) is None,
        image_at(None) is None,
{
}

/// A search begins exactly if there is a title; it asks for films and for series with the title and
/// the year that it was given.
pub proof fn searches_need_a_title(
    client: &TmdbClient,
    title: &str,
    year: Option<i32>,
    r: Option<SmartSearch>,
    requests: (Call, Call),
)
    requires
        call_ensures(TmdbClient::smart_search, (client, title, year), r),
        r matches Some(s) ==> call_ensures(SmartSearch::requests, (&s, client), requests),
    ensures
        r is Some <==> title@.len() > 0,
        r matches Some(s) ==> {
            let (film, series) = requests;
            &&& s.title@ == title@ && s.year == year
            &&& is_request(film, *client, "/search/movie"@)
            &&& is_request(series, *client, "/search/tv"@)
            &&& film@.pairs[2] == ("query"@, title@)
            &&& series@.pairs[2] == ("query"@, title@)
            &&& year is None ==> film@.pairs.len() == 3 && series@.pairs.len() == 3
            &&& year matches Some(y) ==> film@.pairs[3] == ("year"@, decimal_int(y as int))
                && series@.pairs[3] == ("first_air_date_year"@, decimal_int(y as int))
        },
{
}

/// Of a long list the first items are taken; a short one stays as it is.
pub proof fn long_lists_are_cut(list: Vec<TmdbMovie>, limit: usize, r: Vec<TmdbMovie>)
    requires
        call_ensures(truncated::<TmdbMovie>, (list, limit), r),
    ensures
        r@.len() == if limit < list@.len() {
            limit as int
        } else {
            list@.len() as int
        },
        forall|i: int| 0 <= i < r@.len() ==> #[trigger] r@[i] == list@[i],
{
}

} // verus!
