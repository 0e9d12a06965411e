//! Resources.

use vstd::prelude::*;

#[allow(unused_imports)]
use crate::adapters::adapter_115::{
    entries_view, is_name_or_question, Adapter115, FileEntry, FileEntryView,
};
use crate::adapters::folder_listing::FolderListing;
pub use crate::api::paging::PagedResponse;
#[allow(unused_imports)]
use crate::api::paging::{page_window, window_of, PageWindow};
#[allow(unused_imports)]
use crate::api::shares::{code_of, share_code};
use crate::call::Call;
use crate::db::models::{Resource, Share};
use crate::error::AppError;
#[allow(unused_imports)]
use crate::services::tmdb::{parse_year, year_of, TmdbMovie, TmdbTv, TMDB_IMAGE_BASE};
#[allow(unused_imports)]
use crate::text::number::{decimal_i64, decimal_int};
#[allow(unused_imports)]
use crate::text::{cat, cat3, list_view, option_view, or_empty, same, starts_with, trim, trimmed};

verus! {

// ---------------------------------------------------------------------------
// Requests
// ---------------------------------------------------------------------------

/// Which resources are asked for.
#[derive(Debug)]
pub struct SearchQuery {
    pub keyword: Option<String>,
    pub resource_type: Option<String>,
    pub year: Option<i32>,
    pub skip: i64,
    pub limit: i64,
}

/// Which popular resources are asked for.
#[derive(Debug)]
pub struct PopularQuery {
    pub resource_type: Option<String>,
    pub limit: usize,
}

/// How many popular resources are told where that is not said.
pub fn default_popular_limit() -> (r: usize)
    ensures
        r == 12,
{
    12
}

/// Which folder is asked for.
#[derive(Debug)]
pub struct FolderQuery {
    pub cid: String,
}

/// The folder that is asked for where none is said: the root folder.
pub fn default_folder_cid() -> (r: String)
    ensures
        r@ == "0"@,
{
    "0".to_string()
}

/// The folder whose name is asked for.
#[derive(Debug)]
pub struct FolderNameQuery {
    pub cid: String,
}

// ---------------------------------------------------------------------------
// Images
// ---------------------------------------------------------------------------

/// Where an image is: a path is one of the film database, and anything else stands for itself.
pub open spec fn normalized_image(url: Option<Seq<char>>) -> Option<Seq<char>> {
    match url {
        Some(u) => {
            let t = trimmed(u);
            if t.len() == 0 {
                None
            } else if t[0] == '/' {
                Some(TMDB_IMAGE_BASE@ + t)
            } else {
                Some(t)
            }
        },
        None => None,
    }
}

/// Where an image is.
pub fn normalize_tmdb_image_url(url: Option<String>) -> (r: Option<String>)
    ensures
        option_view(r) == normalized_image(option_view(url)),
{
    match url {
        Some(u) => {
            let t = trim(u.as_str());
            if t.as_str().is_empty() {
                return None;
            }
            proof {
                reveal_strlit("/");
                assert("/"@ =~= seq!['/']);
                assert(t@.subrange(0, 1) =~= seq![t@[0]]);
                assert(seq![t@[0]][0] == t@[0]);
                assert(seq!['/'][0] == '/');
            }
            if starts_with(t.as_str(), "/") {
                Some(cat(TMDB_IMAGE_BASE, t.as_str()))
            } else {
                Some(t)
            }
        },
        None => None,
    }
}

// ---------------------------------------------------------------------------
// Answers
// ---------------------------------------------------------------------------

/// A resource, as it is answered.
#[derive(Debug)]
pub struct ResourceResponse {
    pub id: i64,
    pub title: String,
    pub original_title: Option<String>,
    pub year: Option<i32>,
    pub resource_type: String,
    pub tmdb_id: Option<i64>,
    pub imdb_id: Option<String>,
    pub overview: Option<String>,
    pub poster_url: Option<String>,
    pub backdrop_url: Option<String>,
    pub status: String,
    pub created_at: i64,
}

impl ResourceResponse {
    /// A resource, as it is answered: as it is stored, with the places of its images in full.
    pub fn from_resource(r: Resource) -> (out: Self)
        ensures
            out == (ResourceResponse {
                id: r.id,
                title: r.title,
                original_title: r.original_title,
                year: r.year,
                resource_type: r.resource_type,
                tmdb_id: r.tmdb_id,
                imdb_id: r.imdb_id,
                overview: r.overview,
                poster_url: out.poster_url,
                backdrop_url: out.backdrop_url,
                status: r.status,
                created_at: r.created_at,
            }),
            option_view(out.poster_url) == normalized_image(option_view(r.poster_url)),
            option_view(out.backdrop_url) == normalized_image(option_view(r.backdrop_url)),
    {
        ResourceResponse {
            id: r.id,
            title: r.title,
            original_title: r.original_title,
            year: r.year,
            resource_type: r.resource_type,
            tmdb_id: r.tmdb_id,
            imdb_id: r.imdb_id,
            overview: r.overview,
            poster_url: normalize_tmdb_image_url(r.poster_url),
            backdrop_url: normalize_tmdb_image_url(r.backdrop_url),
            status: r.status,
            created_at: r.created_at,
        }
    }
}

/// A popular resource, as it is answered.
#[derive(Debug)]
pub struct PopularResourceItem {
    pub title: String,
    pub original_title: String,
    pub year: Option<i32>,
    pub resource_type: String,
    pub tmdb_id: i64,
    pub overview: Option<String>,
    pub poster_url: Option<String>,
    pub backdrop_url: Option<String>,
}

impl PopularResourceItem {
    /// A film, as it is answered.
    pub fn from_movie(m: TmdbMovie) -> (r: Self)
        ensures
            r.title == m.title,
            r.original_title == m.original_title,
            r.year == year_of(option_view(m.release_date)),
            r.resource_type@ == "movie"@,
            r.tmdb_id == m.id,
            r.overview == m.overview,
            option_view(r.poster_url) == normalized_image(option_view(m.poster_path)),
            option_view(r.backdrop_url) == normalized_image(option_view(m.backdrop_path)),
    {
        PopularResourceItem {
            title: m.title,
            original_title: m.original_title,
            year: parse_year(&m.release_date),
            resource_type: "movie".to_string(),
            tmdb_id: m.id,
            overview: m.overview,
            poster_url: normalize_tmdb_image_url(m.poster_path),
            backdrop_url: normalize_tmdb_image_url(m.backdrop_path),
        }
    }

    /// A series, as it is answered.
    pub fn from_tv(t: TmdbTv) -> (r: Self)
        ensures
            r.title == t.name,
            r.original_title == t.original_name,
            r.year == year_of(option_view(t.first_air_date)),
            r.resource_type@ == "tv"@,
            r.tmdb_id == t.id,
            r.overview == t.overview,
            option_view(r.poster_url) == normalized_image(option_view(t.poster_path)),
            option_view(r.backdrop_url) == normalized_image(option_view(t.backdrop_path)),
    {
        PopularResourceItem {
            title: t.name,
            original_title: t.original_name,
            year: parse_year(&t.first_air_date),
            resource_type: "tv".to_string(),
            tmdb_id: t.id,
            overview: t.overview,
            poster_url: normalize_tmdb_image_url(t.poster_path),
            backdrop_url: normalize_tmdb_image_url(t.backdrop_path),
        }
    }
}

// ---------------------------------------------------------------------------
// Lists
// ---------------------------------------------------------------------------

/// Which stored resources are told.
#[derive(Debug)]
pub struct ResourceFilter {
    /// A pattern that the title, or the original title, is like.
    pub keyword: Option<String>,
    pub resource_type: Option<String>,
    pub year: Option<i32>,
    pub window: PageWindow,
}

/// A text without white space around it, unless nothing is left.
pub open spec fn told(s: Option<Seq<char>>) -> Option<Seq<char>> {
    match s {
        Some(t) => if trimmed(t).len() > 0 {
            Some(trimmed(t))
        } else {
            None
        },
        None => None,
    }
}

/// A text without white space around it, unless nothing is left.
fn told_text(s: &Option<String>) -> (r: Option<String>)
    ensures
        option_view(r) == told(option_view(*s)),
{
    match s {
        Some(t) => {
            let t = trim(t.as_str());
            if t.as_str().is_empty() {
                None
            } else {
                Some(t)
            }
        },
        None => None,
    }
}

/// Which stored resources a request asks for: those that hold the keyword, are of the kind and came
/// out in the year, as far as these are told.
pub fn list_resources(q: &SearchQuery) -> (r: ResourceFilter)
    ensures
        option_view(r.keyword) == match told(option_view(q.keyword)) {
            Some(k) => Some("%"@ + k + "%"@),
            None => None,
        },
        option_view(r.resource_type) == told(option_view(q.resource_type)),
        r.year == q.year,
        r.window == window_of(q.skip, q.limit),
{
    let keyword = match told_text(&q.keyword) {
        Some(k) => Some(cat3("%", k.as_str(), "%")),
        None => None,
    };
    ResourceFilter {
        keyword,
        resource_type: told_text(&q.resource_type),
        year: q.year,
        window: page_window(q.skip, q.limit),
    }
}

/// Which popular resources are told.
#[derive(Debug, Clone, Copy, PartialEq, Eq, Structural)]
pub enum Popular {
    Movies { limit: usize },
    Series { limit: usize },
}

/// Between 1 and 40.
pub open spec fn popular_limit(limit: usize) -> usize {
    if limit < 1 {
        1
    } else if limit > 40 {
        40
    } else {
        limit
    }
}

/// Which popular resources a request asks for: films, unless it says otherwise.
pub fn popular_resources(q: &PopularQuery) -> (r: Result<Popular, AppError>)
    ensures
        ({
            let kind = match q.resource_type {
                Some(k) => k@,
                None => "movie"@,
            };
            match r {
                Ok(Popular::Series { limit }) => kind == "tv"@ && limit == popular_limit(q.limit),
                Ok(Popular::Movies { limit }) => {
                    &&& kind == "movie"@ || kind.len() == 0
                    &&& limit == popular_limit(q.limit)
                },
                Err(e) => {
                    &&& kind != "tv"@ && kind != "movie"@ && kind.len() > 0
                    &&& e is BadRequest
                    &&& e->BadRequest_0@ == "不支持的热门类型："@ + kind + "，仅支持 movie/tv"@
                },
            }
        }),
{
    let limit: usize = if q.limit < 1 {
        1
    } else if q.limit > 40 {
        40
    } else {
        q.limit
    };
    proof {
        reveal_strlit("tv");
        reveal_strlit("movie");
        assert("tv"@.len() == 2 && "movie"@.len() == 5);
    }
    match &q.resource_type {
        Some(kind) => {
            if same(kind.as_str(), "tv") {
                Ok(Popular::Series { limit })
            } else if kind.as_str().is_empty() || same(kind.as_str(), "movie") {
                Ok(Popular::Movies { limit })
            } else {
                Err(
                    AppError::BadRequest(
                        cat3("不支持的热门类型：", kind.as_str(), "，仅支持 movie/tv"),
                    ),
                )
            }
        },
        None => Ok(Popular::Movies { limit }),
    }
}

// ---------------------------------------------------------------------------
// Single resources
// ---------------------------------------------------------------------------

/// There is no such resource.
pub open spec fn is_missing(e: AppError, id: i64) -> bool {
    &&& e is NotFound
    &&& e->NotFound_0@ == "资源 #"@ + decimal_int(id as int) + " 不存在"@
}

/// Whether there is a resource, which is needed to tell its shares and its files.
pub fn require_resource(exists: bool, id: i64) -> (r: Result<(), AppError>)
    ensures
        match r {
            Ok(_) => exists,
            Err(e) => !exists && is_missing(e, id),
        },
{
    if exists {
        Ok(())
    } else {
        Err(AppError::NotFound(cat3("资源 #", decimal_i64(id).as_str(), " 不存在")))
    }
}

/// A resource that was asked for.
pub fn get_resource(resource: Option<Resource>, id: i64) -> (r: Result<ResourceResponse, AppError>)
    ensures
        match r {
            Ok(out) => {
                &&& resource is Some
                &&& out == (ResourceResponse {
                    id: resource->0.id,
                    title: resource->0.title,
                    original_title: resource->0.original_title,
                    year: resource->0.year,
                    resource_type: resource->0.resource_type,
                    tmdb_id: resource->0.tmdb_id,
                    imdb_id: resource->0.imdb_id,
                    overview: resource->0.overview,
                    poster_url: out.poster_url,
                    backdrop_url: out.backdrop_url,
                    status: resource->0.status,
                    created_at: resource->0.created_at,
                })
                &&& option_view(out.poster_url) == normalized_image(
                    option_view(resource->0.poster_url),
                )
                &&& option_view(out.backdrop_url) == normalized_image(
                    option_view(resource->0.backdrop_url),
                )
            },
            Err(e) => resource is None && is_missing(e, id),
        },
{
    match resource {
        Some(found) => Ok(ResourceResponse::from_resource(found)),
        None => Err(AppError::NotFound(cat3("资源 #", decimal_i64(id).as_str(), " 不存在"))),
    }
}

// ---------------------------------------------------------------------------
// Deleting
// ---------------------------------------------------------------------------

/// The codes of shares, in their order. Some shares have none.
pub open spec fn codes_of(shares: Seq<Share>) -> Seq<Seq<char>>
    decreases shares.len(),
{
    if shares.len() == 0 {
        Seq::empty()
    } else {
        match code_of(shares.last()) {
            Some(code) => codes_of(shares.drop_last()).push(code),
            None => codes_of(shares.drop_last()),
        }
    }
}

/// The codes of the shares that are cancelled when a resource is deleted: those of all its shares.
/// The files of the resource stay where they are.
pub fn delete_resource(exists: bool, id: i64, shares: &[Share]) -> (r: Result<Vec<String>, AppError>)
    ensures
        match r {
            Ok(codes) => exists && list_view(codes@) == codes_of(shares@),
            Err(e) => !exists && is_missing(e, id),
        },
{
    match require_resource(exists, id) {
        Ok(_) => {},
        Err(e) => {
            return Err(e);
        },
    }
    let mut codes: Vec<String> = Vec::new();
    let mut i: usize = 0;
    assert(list_view(codes@) =~= codes_of(shares@.take(0)));
    while i < shares.len()
        invariant
            i <= shares@.len(),
            list_view(codes@) == codes_of(shares@.take(i as int)),
        decreases shares@.len() - i,
    {
        assert(shares@.take(i + 1).drop_last() =~= shares@.take(i as int));
        match share_code(&shares[i]) {
            Some(code) => {
                let ghost before = codes@;
                codes.push(code);
                assert(list_view(codes@) =~= list_view(before).push(code@));
            },
            None => {},
        }
        i = i + 1;
    }
    assert(shares@.take(i as int) =~= shares@);
    Ok(codes)
}

/// What is told of a resource that was deleted.
#[derive(Debug, Clone, Copy, PartialEq, Eq, Structural)]
pub struct DeletionReport {
    pub deleted: bool,
    pub resource_id: i64,
    pub shares_deleted: u64,
    pub shares_canceled: usize,
    pub share_cancel_failed: usize,
}

/// How many of the outcomes are successes.
pub open spec fn successes(outcomes: Seq<bool>) -> nat
    decreases outcomes.len(),
{
    if outcomes.len() == 0 {
        0
    } else {
        successes(outcomes.drop_last()) + if outcomes.last() {
            1nat
        } else {
            0
        }
    }
}

/// What is told of a resource that was deleted, given for each share that was to be cancelled
/// whether it was. A share that could not be does not stop the deletion.
pub fn deletion_report(
    id: i64,
    resource_rows: u64,
    share_rows: u64,
    cancelled: &[bool],
) -> (r: DeletionReport)
    ensures
        r.deleted == (resource_rows > 0),
        r.resource_id == id,
        r.shares_deleted == share_rows,
        r.shares_canceled == successes(cancelled@),
        r.shares_canceled + r.share_cancel_failed == cancelled@.len(),
{
    let mut shares_canceled: usize = 0;
    let mut i: usize = 0;
    assert(cancelled@.take(0) =~= Seq::empty());
    while i < cancelled.len()
        invariant
            i <= cancelled@.len(),
            shares_canceled <= i,
            shares_canceled == successes(cancelled@.take(i as int)),
        decreases cancelled@.len() - i,
    {
        assert(cancelled@.take(i + 1).drop_last() =~= cancelled@.take(i as int));
        if cancelled[i] {
            shares_canceled = shares_canceled + 1;
        }
        i = i + 1;
    }
    assert(cancelled@.take(i as int) =~= cancelled@);
    DeletionReport {
        deleted: resource_rows > 0,
        resource_id: id,
        shares_deleted: share_rows,
        shares_canceled,
        share_cancel_failed: i - shares_canceled,
    }
}

// ---------------------------------------------------------------------------
// Folders
// ---------------------------------------------------------------------------

/// Begins to read what stands in the folder that a request names.
pub fn folder_listing(adapter: &Adapter115, query: &FolderQuery) -> (r: FolderListing)
    ensures
        r.cid@ == query.cid@,
        r.files@.len() == 0,
{
    adapter.list_files(query.cid.as_str())
}

/// Asks for the name of the folder that a request names. That of the root folder is known.
pub fn get_folder_name(adapter: &Adapter115, query: &FolderNameQuery) -> (r: Result<String, Call>)
    ensures
        is_name_or_question(query.cid@, r),
{
    adapter.get_folder_name(query.cid.as_str())
}

/// A folder, as it is answered.
#[derive(Debug)]
pub struct FolderItem {
    pub id: String,
    pub name: String,
}

/// The folders among entries, in their order: identifier and name.
pub open spec fn folders_of(entries: Seq<FileEntryView>) -> Seq<(Seq<char>, Seq<char>)>
    decreases entries.len(),
{
    if entries.len() == 0 {
        Seq::empty()
    } else if entries.last().is_dir {
        folders_of(entries.drop_last()).push((or_empty(entries.last().file_id), entries.last().name))
    } else {
        folders_of(entries.drop_last())
    }
}

/// Folders over sequences of characters.
pub open spec fn folders_view(folders: Seq<FolderItem>) -> Seq<(Seq<char>, Seq<char>)> {
    folders.map_values(|f: FolderItem| (f.id@, f.name@))
}

/// The folders among what stands in a folder.
pub fn list_folders(entries: &[FileEntry]) -> (r: Vec<FolderItem>)
    ensures
        folders_view(r@) == folders_of(entries_view(entries@)),
{
    let mut out: Vec<FolderItem> = Vec::new();
    let ghost all = entries_view(entries@);
    let mut i: usize = 0;
    assert(folders_view(out@) =~= folders_of(all.take(0)));
    while i < entries.len()
        invariant
            i <= entries@.len(),
            all == entries_view(entries@),
            folders_view(out@) == folders_of(all.take(i as int)),
        decreases entries@.len() - i,
    {
        assert(all.take(i + 1).drop_last() =~= all.take(i as int));
        assert(all.take(i + 1).last() == entries@[i as int]@);
        if entries[i].is_dir {
            let id = match &entries[i].file_id {
                Some(id) => id.clone(),
                None => String::new(),
            };
            let ghost before = out@;
            let item = FolderItem { id, name: entries[i].name.clone() };
            out.push(item);
            assert(folders_view(out@) =~= folders_view(before).push((item.id@, item.name@)));
        }
        i = i + 1;
    }
    assert(all.take(i as int) =~= all);
    out
}

/// An image is where it is: asking again where it is changes nothing.
pub proof fn images_stay_where_they_are(url: Option<Seq<char>>)
    ensures
        normalized_image(normalized_image(url)) == normalized_image(url),
{
    if url is Some {
        let t = trimmed(url->0);
        crate::services::title::lemma_trimmed(url->0);
        if t.len() > 0 {
            reveal_strlit("https://image.tmdb.org/t/p/w500");
            let placed = if t[0] == '/' {
                TMDB_IMAGE_BASE@ + t
            } else {
                t
            };
            assert(placed[0] == 'h' || placed[0] == t[0]);
            assert(placed.last() == t.last());
            assert(crate::text::trim_start(placed) == placed);
            assert(crate::text::trim_end(placed) == placed);
        }
    }
}

} // verus!
