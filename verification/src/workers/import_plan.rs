//! The decisions of an import: what may be taken over, what it is, and what is stored and shared.

use vstd::prelude::*;

#[allow(unused_imports)]
use crate::adapters::adapter_115::{entries_view, FileEntry, FileEntryView, QuotaInfo};
use crate::config::Config;
#[allow(unused_imports)]
use crate::services::organizer::{
    database_year, is_folder, names_folder, results_view, year_in_database, year_suffix, year_text,
    OrganizerResult, OrganizerResultView,
};
#[allow(unused_imports)]
use crate::services::title::{
    database_title, known_entry, local_title, preferred, preferred_resource_title,
};
#[allow(unused_imports)]
use crate::services::tmdb::{image_at, TmdbResult, TmdbTv};
#[allow(unused_imports)]
use crate::share_link::{share_id, share_id_of};
#[allow(unused_imports)]
use crate::text::number::{decimal, decimal_i64, decimal_int, decimal_u128, decimal_u64};
#[allow(unused_imports)]
use crate::text::{
    begins_with, cat, cat3, copy_option, list_view, option_view, same, starts_with, trim, trimmed,
};
#[allow(unused_imports)]
use crate::utils::{
    either, is_subtitle, is_subtitle_file, is_video, is_video_file, parse_file_name, parsed, said,
    ParsedFileName, ParsedFileNameView,
};

verus! {

// ---------------------------------------------------------------------------
// The share
// ---------------------------------------------------------------------------

/// The share that a link names, or why it names none.
pub fn extract_share_id(url: &str) -> (r: Result<String, String>)
    ensures
        match r {
            Ok(id) => share_id_of(url@) == Some(id@),
            Err(e) => share_id_of(url@) is None && e@ == "无效的 115 分享 URL："@ + url@,
        },
{
    match share_id(url) {
        Some(id) => Ok(id),
        None => Err(cat("无效的 115 分享 URL：", url)),
    }
}

/// The identifiers of entries, in their order. Some entries have none.
pub open spec fn ids_of(entries: Seq<FileEntryView>) -> Seq<Seq<char>>
    decreases entries.len(),
{
    if entries.len() == 0 {
        Seq::empty()
    } else {
        match entries.last().file_id {
            Some(id) => ids_of(entries.drop_last()).push(id),
            None => ids_of(entries.drop_last()),
        }
    }
}

/// The identifiers of entries, in their order.
pub fn entry_ids(entries: &[FileEntry]) -> (r: Vec<String>)
    ensures
        list_view(r@) == ids_of(entries_view(entries@)),
{
    let mut out: Vec<String> = Vec::new();
    let ghost all = entries_view(entries@);
    let mut i: usize = 0;
    assert(list_view(out@) =~= ids_of(all.take(0)));
    while i < entries.len()
        invariant
            i <= entries@.len(),
            all == entries_view(entries@),
            list_view(out@) == ids_of(all.take(i as int)),
        decreases entries@.len() - i,
    {
        assert(all.take(i + 1).drop_last() =~= all.take(i as int));
        assert(all.take(i + 1).last() == entries@[i as int]@);
        match &entries[i].file_id {
            Some(id) => {
                let ghost before = out@;
                out.push(id.clone());
                assert(list_view(out@) =~= list_view(before).push(id@));
            },
            None => {},
        }
        i = i + 1;
    }
    assert(all.take(i as int) =~= all);
    out
}

// ---------------------------------------------------------------------------
// Limits and space
// ---------------------------------------------------------------------------

/// Whether a share is larger than may be taken over at once. Without a limit none is.
pub open spec fn is_too_large(total_size: int, config: Config) -> bool {
    config.transfer_max_size_gb > 0 && total_size > config.transfer_max_size_gb * 1024 * 1024 * 1024
}

/// Whether a share has more files than may be taken over at once. Without a limit none has.
pub open spec fn is_too_many(file_count: int, config: Config) -> bool {
    config.transfer_max_file_count > 0 && file_count > config.transfer_max_file_count
}

/// Whether the free space would fall below what has to stay free. Where the space is not known, it
/// is taken to be enough.
pub open spec fn lacks_space(quota: QuotaInfo, total_size: int, config: Config) -> bool {
    quota.total > 0 && quota.free < total_size + config.transfer_min_free_space_gb * 1024 * 1024
        * 1024
}

/// Why a share is too large.
pub open spec fn too_large_text(total_size: int, config: Config) -> Seq<char> {
    "分享文件总大小超出单次转存上限："@ + decimal_int(total_size) + " bytes > "@ + decimal(
        (config.transfer_max_size_gb * 1024 * 1024 * 1024) as nat,
    ) + " bytes（"@ + decimal(config.transfer_max_size_gb as nat) + " GB）"@
}

/// Why a share has too many files.
pub open spec fn too_many_text(file_count: int, config: Config) -> Seq<char> {
    "分享文件数量超出单次转存上限："@ + decimal(file_count as nat) + " > "@ + decimal(
        config.transfer_max_file_count as nat,
    )
}

/// Why the space is not enough.
pub open spec fn no_space_text(quota: QuotaInfo, total_size: int, config: Config) -> Seq<char> {
    "存储空间不足：剩余 "@ + decimal_int(quota.free as int) + " bytes，需要转存 "@ + decimal_int(
        total_size,
    ) + " bytes 并保留 "@ + decimal(
        (config.transfer_min_free_space_gb * 1024 * 1024 * 1024) as nat,
    ) + " bytes 余量"@
}

/// Whether a share may be taken over, or why not.
pub fn check_limits(total_size: i64, file_count: usize, config: &Config) -> (r: Result<(), String>)
    ensures
        match r {
            Ok(_) => !is_too_large(total_size as int, *config) && !is_too_many(
                file_count as int,
                *config,
            ),
            Err(e) => if is_too_large(total_size as int, *config) {
                e@ == too_large_text(total_size as int, *config)
            } else {
                &&& is_too_many(file_count as int, *config)
                &&& e@ == too_many_text(file_count as int, *config)
            },
        },
{
    let max_bytes: u128 = config.transfer_max_size_gb as u128 * 1024 * 1024 * 1024;
    if config.transfer_max_size_gb > 0 && total_size > 0 && total_size as u128 > max_bytes {
        let mut text = cat3(
            "分享文件总大小超出单次转存上限：",
            decimal_i64(total_size).as_str(),
            " bytes > ",
        );
        text.append(decimal_u128(max_bytes).as_str());
        text.append(" bytes（");
        text.append(decimal_u64(config.transfer_max_size_gb).as_str());
        text.append(" GB）");
        return Err(text);
    }
    let max_count: u64 = config.transfer_max_file_count as u64;
    if max_count > 0 && file_count as u64 > max_count {
        let mut text = cat3(
            "分享文件数量超出单次转存上限：",
            decimal_u64(file_count as u64).as_str(),
            " > ",
        );
        text.append(decimal_u64(max_count).as_str());
        return Err(text);
    }
    Ok(())
}

/// Whether there is space enough, or why not.
pub fn check_space(quota: &QuotaInfo, total_size: i64, config: &Config) -> (r: Result<(), String>)
    ensures
        match r {
            Ok(_) => !lacks_space(*quota, total_size as int, *config),
            Err(e) => lacks_space(*quota, total_size as int, *config) && e@ == no_space_text(
                *quota,
                total_size as int,
                *config,
            ),
        },
{
    let spare: i128 = config.transfer_min_free_space_gb as i128 * 1024 * 1024 * 1024;
    if quota.total > 0 && (quota.free as i128) < total_size as i128 + spare {
        let mut text = cat3(
            "存储空间不足：剩余 ",
            decimal_i64(quota.free).as_str(),
            " bytes，需要转存 ",
        );
        text.append(decimal_i64(total_size).as_str());
        text.append(" bytes 并保留 ");
        text.append(decimal_u128(spare as u128).as_str());
        text.append(" bytes 余量");
        Err(text)
    } else {
        Ok(())
    }
}

/// The name of the folder that a task takes files over into.
pub open spec fn temp_folder_name(task_id: i64) -> Seq<char> {
    "hidden-task-"@ + decimal_int(task_id as int)
}

/// The name of the folder that a task takes files over into.
pub fn temp_folder(task_id: i64) -> (r: String)
    ensures
        r@ == temp_folder_name(task_id),
{
    cat("hidden-task-", decimal_i64(task_id).as_str())
}

// ---------------------------------------------------------------------------
// What it is
// ---------------------------------------------------------------------------

/// What the names of the videos among files say, in their order.
pub open spec fn video_names(files: Seq<FileEntryView>) -> Seq<ParsedFileNameView>
    decreases files.len(),
{
    if files.len() == 0 {
        Seq::empty()
    } else if !files.last().is_dir && is_video(files.last().name) {
        video_names(files.drop_last()).push(parsed(files.last().name))
    } else {
        video_names(files.drop_last())
    }
}

/// The first of names, from the `i`th on, that has a title.
pub open spec fn first_titled_of(names: Seq<ParsedFileNameView>, i: int) -> Option<
    ParsedFileNameView,
>
    decreases names.len() - i,
{
    if i >= names.len() {
        None
    } else if names[i].title.len() > 0 {
        Some(names[i])
    } else {
        first_titled_of(names, i + 1)
    }
}

/// What the name of the first video with a title says.
pub open spec fn inferred_from(files: Seq<FileEntryView>) -> Option<ParsedFileNameView> {
    first_titled_of(video_names(files), 0)
}

/// What the name of a file says, over sequences of characters.
pub open spec fn name_view(name: Option<ParsedFileName>) -> Option<ParsedFileNameView> {
    match name {
        Some(p) => Some(p@),
        None => None,
    }
}

/// What names of files say, over sequences of characters.
pub open spec fn names_view(names: Seq<ParsedFileName>) -> Seq<ParsedFileNameView> {
    names.map_values(|p: ParsedFileName| p@)
}

/// The first of names that has a title.
pub fn first_titled(names: Vec<ParsedFileName>) -> (r: Option<ParsedFileName>)
    ensures
        name_view(r) == first_titled_of(names_view(names@), 0),
{
    let ghost all = names_view(names@);
    let mut rest = names;
    let mut i: usize = 0;
    while i < rest.len()
        invariant
            i <= rest@.len(),
            rest@ == names@,
            all == names_view(names@),
            first_titled_of(all, 0) == first_titled_of(all, i as int),
        decreases rest@.len() - i,
    {
        assert(all[i as int] == rest@[i as int]@);
        if !rest[i].title.as_str().is_empty() {
            return Some(rest.remove(i));
        }
        i = i + 1;
    }
    None
}

/// What the name of the first video with a title says.
pub fn infer(files: &[FileEntry]) -> (r: Option<ParsedFileName>)
    ensures
        name_view(r) == inferred_from(entries_view(files@)),
{
    let mut names: Vec<ParsedFileName> = Vec::new();
    let ghost all = entries_view(files@);
    let mut i: usize = 0;
    assert(names_view(names@) =~= video_names(all.take(0)));
    while i < files.len()
        invariant
            i <= files@.len(),
            all == entries_view(files@),
            names_view(names@) == video_names(all.take(i as int)),
        decreases files@.len() - i,
    {
        assert(all.take(i + 1).drop_last() =~= all.take(i as int));
        assert(all.take(i + 1).last() == files@[i as int]@);
        if !files[i].is_dir && is_video_file(files[i].name.as_str()) {
            let ghost before = names@;
            let name = parse_file_name(files[i].name.as_str());
            names.push(name);
            assert(names_view(names@) =~= names_view(before).push(name@));
        }
        i = i + 1;
    }
    assert(all.take(i as int) =~= all);
    first_titled(names)
}

/// How the database is searched.
#[derive(Debug)]
pub enum Lookup {
    /// Not at all.
    Nothing,
    /// For a series.
    Series { title: String, year: Option<i32> },
    /// For a film or a series.
    Anything { title: String, year: Option<i32> },
}

/// Whether the database is searched rightly: for a series where the name tells a season or an
/// episode; not at all without a title or without access.
pub open spec fn lookup_fits(
    lookup: Lookup,
    inferred: Option<ParsedFileName>,
    config: Config,
) -> bool {
    match lookup {
        Lookup::Nothing => inferred is None || config.tmdb_api_key@.len() == 0,
        Lookup::Series { title, year } => {
            &&& inferred is Some
            &&& config.tmdb_api_key@.len() > 0
            &&& inferred->0.season is Some || inferred->0.episode is Some
            &&& title@ == inferred->0.title@
            &&& year == inferred->0.year
        },
        Lookup::Anything { title, year } => {
            &&& inferred is Some
            &&& config.tmdb_api_key@.len() > 0
            &&& inferred->0.season is None && inferred->0.episode is None
            &&& title@ == inferred->0.title@
            &&& year == inferred->0.year
        },
    }
}

/// How the database is searched.
pub fn lookup_for(inferred: &Option<ParsedFileName>, config: &Config) -> (r: Lookup)
    ensures
        lookup_fits(r, *inferred, *config),
{
    match inferred {
        Some(name) => {
            if config.tmdb_api_key.as_str().is_empty() {
                Lookup::Nothing
            } else if name.season.is_some() || name.episode.is_some() {
                Lookup::Series { title: name.title.clone(), year: name.year }
            } else {
                Lookup::Anything { title: name.title.clone(), year: name.year }
            }
        },
        None => Lookup::Nothing,
    }
}

/// The first series that was found. A search that failed found none.
pub fn first_series(shows: Option<Vec<TmdbTv>>) -> (r: Option<TmdbResult>)
    ensures
        r == match shows {
            Some(v) => if v@.len() > 0 {
                Some(TmdbResult::Tv(v@[0]))
            } else {
                None
            },
            None => None,
        },
{
    match shows {
        Some(v) => {
            if v.len() == 0 {
                return None;
            }
            let mut v = v;
            Some(TmdbResult::Tv(v.remove(0)))
        },
        None => None,
    }
}

// ---------------------------------------------------------------------------
// What is shared
// ---------------------------------------------------------------------------

/// The identifiers with one more, unless it is blank or already there.
pub open spec fn with_id(ids: Seq<Seq<char>>, id: Seq<char>) -> Seq<Seq<char>> {
    if trimmed(id).len() == 0 || ids.contains(id) {
        ids
    } else {
        ids.push(id)
    }
}

/// The identifiers with those of entries.
pub open spec fn with_entries(ids: Seq<Seq<char>>, entries: Seq<FileEntryView>) -> Seq<Seq<char>>
    decreases entries.len(),
{
    if entries.len() == 0 {
        ids
    } else {
        let before = with_entries(ids, entries.drop_last());
        match entries.last().file_id {
            Some(id) => with_id(before, id),
            None => before,
        }
    }
}

/// The identifiers with those of the folders that kept files went to.
pub open spec fn with_folders(ids: Seq<Seq<char>>, results: Seq<OrganizerResultView>) -> Seq<
    Seq<char>,
>
    decreases results.len(),
{
    if results.len() == 0 {
        ids
    } else {
        let before = with_folders(ids, results.drop_last());
        if is_folder(results.last().folder_id) {
            with_id(before, results.last().folder_id)
        } else {
            before
        }
    }
}

/// The identifiers with those of kept files.
pub open spec fn with_files(ids: Seq<Seq<char>>, results: Seq<OrganizerResultView>) -> Seq<
    Seq<char>,
>
    decreases results.len(),
{
    if results.len() == 0 {
        ids
    } else {
        with_id(with_files(ids, results.drop_last()), results.last().file_id)
    }
}

/// What is shared: the folders that kept files went to, and then the files; where none was kept,
/// what was taken over.
pub open spec fn share_ids_of(
    results: Seq<OrganizerResultView>,
    temp_files: Seq<FileEntryView>,
) -> Seq<Seq<char>> {
    if results.len() == 0 {
        with_entries(Seq::empty(), temp_files)
    } else {
        with_files(with_folders(Seq::empty(), results), results)
    }
}

/// Adds an identifier, unless it is blank or already there.
pub fn push_unique_id(ids: &mut Vec<String>, id: &str)
    ensures
        list_view(final(ids)@) == with_id(list_view(old(ids)@), id@),
{
    if trim(id).as_str().is_empty() {
        return;
    }
    let ghost all = list_view(ids@);
    let mut i: usize = 0;
    while i < ids.len()
        invariant
            i <= ids@.len(),
            ids@ == old(ids)@,
            all == list_view(ids@),
            forall|j: int| 0 <= j < i ==> all[j] != id@,
        decreases ids@.len() - i,
    {
        if same(ids[i].as_str(), id) {
            assert(all[i as int] == id@);
            return;
        }
        i = i + 1;
    }
    assert(!all.contains(id@));
    ids.push(id.to_string());
    assert(list_view(ids@) =~= all.push(id@));
}

/// What is shared.
pub fn build_share_file_ids(results: &[OrganizerResult], temp_files: &[FileEntry]) -> (r: Vec<
    String,
>)
    ensures
        list_view(r@) == share_ids_of(results_view(results@), entries_view(temp_files@)),
{
    let mut ids: Vec<String> = Vec::new();
    let ghost none = Seq::<Seq<char>>::empty();
    assert(list_view(ids@) =~= none);
    let ghost kept = results_view(results@);
    let ghost taken = entries_view(temp_files@);
    if results.len() == 0 {
        let mut i: usize = 0;
        assert(taken.take(0) =~= Seq::empty());
        while i < temp_files.len()
            invariant
                i <= temp_files@.len(),
                none == Seq::<Seq<char>>::empty(),
                taken == entries_view(temp_files@),
                list_view(ids@) == with_entries(none, taken.take(i as int)),
            decreases temp_files@.len() - i,
        {
            assert(taken.take(i + 1).drop_last() =~= taken.take(i as int));
            assert(taken.take(i + 1).last() == temp_files@[i as int]@);
            match &temp_files[i].file_id {
                Some(id) => push_unique_id(&mut ids, id.as_str()),
                None => {},
            }
            i = i + 1;
        }
        assert(taken.take(i as int) =~= taken);
        return ids;
    }
    let mut i: usize = 0;
    assert(kept.take(0) =~= Seq::empty());
    while i < results.len()
        invariant
            i <= results@.len(),
            none == Seq::<Seq<char>>::empty(),
            kept == results_view(results@),
            list_view(ids@) == with_folders(none, kept.take(i as int)),
        decreases results@.len() - i,
    {
        assert(kept.take(i + 1).drop_last() =~= kept.take(i as int));
        assert(kept.take(i + 1).last() == results@[i as int]@);
        if names_folder(results[i].folder_id.as_str()) {
            push_unique_id(&mut ids, results[i].folder_id.as_str());
        }
        i = i + 1;
    }
    assert(kept.take(i as int) =~= kept);
    let ghost folders = list_view(ids@);
    let mut k: usize = 0;
    while k < results.len()
        invariant
            k <= results@.len(),
            kept == results_view(results@),
            list_view(ids@) == with_files(folders, kept.take(k as int)),
        decreases results@.len() - k,
    {
        assert(kept.take(k + 1).drop_last() =~= kept.take(k as int));
        assert(kept.take(k + 1).last() == results@[k as int]@);
        push_unique_id(&mut ids, results[k].file_id.as_str());
        k = k + 1;
    }
    assert(kept.take(k as int) =~= kept);
    ids
}

/// The year that is told: that of the database, or else that of the name of the file.
pub open spec fn told_year(
    tmdb: Option<TmdbResult>,
    inferred: Option<ParsedFileNameView>,
) -> Option<i32> {
    either(
        database_year(tmdb),
        match inferred {
            Some(p) => p.year,
            None => None,
        },
    )
}

/// The year that is told.
fn year_told(tmdb: Option<&TmdbResult>, inferred: Option<&ParsedFileName>) -> (r: Option<i32>)
    ensures
        r == told_year(known_entry(tmdb), said(inferred)),
{
    match year_in_database(tmdb) {
        Some(y) => Some(y),
        None => match inferred {
            Some(p) => p.year,
            None => None,
        },
    }
}

/// The title and the year of a resource, if it has a title.
pub fn build_display_title(tmdb: Option<&TmdbResult>, inferred: Option<&ParsedFileName>) -> (r:
    Option<String>)
    ensures
        option_view(r) == match preferred(database_title(known_entry(tmdb)), local_title(said(inferred))) {
            Some(title) => Some(title + year_suffix(told_year(known_entry(tmdb), said(inferred)))),
            None => None,
        },
{
    match preferred_resource_title(tmdb, inferred) {
        Some(title) => Some(
            cat(title.as_str(), year_text(year_told(tmdb, inferred)).as_str()),
        ),
        None => None,
    }
}

/// The title of a share: that of the resource, or else the number of the task.
pub open spec fn share_title_of(
    tmdb: Option<TmdbResult>,
    inferred: Option<ParsedFileNameView>,
    task_id: i64,
) -> Seq<char> {
    match preferred(database_title(tmdb), local_title(inferred)) {
        Some(title) => title + year_suffix(told_year(tmdb, inferred)),
        None => "Hidden 导入任务 #"@ + decimal_int(task_id as int),
    }
}

/// The title of a share.
pub fn share_title(
    tmdb: Option<&TmdbResult>,
    inferred: Option<&ParsedFileName>,
    task_id: i64,
) -> (r: String)
    ensures
        r@ == share_title_of(known_entry(tmdb), said(inferred), task_id),
{
    match build_display_title(tmdb, inferred) {
        Some(title) => title,
        None => cat("Hidden 导入任务 #", decimal_i64(task_id).as_str()),
    }
}

// ---------------------------------------------------------------------------
// What is stored
// ---------------------------------------------------------------------------

/// A resource to be stored.
#[derive(Debug)]
pub struct ResourceRow {
    pub title: String,
    pub original_title: Option<String>,
    pub year: Option<i32>,
    pub resource_type: String,
    pub tmdb_id: Option<i64>,
    pub overview: Option<String>,
    pub poster_url: Option<String>,
    pub backdrop_url: Option<String>,
}

/// Whether the name of one of the files tells an episode.
pub open spec fn tells_episode(files: Seq<FileEntryView>) -> bool {
    exists|i: int| 0 <= i < files.len() && parsed((#[trigger] files[i]).name).episode is Some
}

/// The kind of a resource: that of the database, or else a series where a file is an episode.
pub open spec fn kind_of(tmdb: Option<TmdbResult>, has_episodes: bool) -> Seq<char> {
    match tmdb {
        Some(t) => t.kind(),
        None => if has_episodes {
            "tv"@
        } else {
            "other"@
        },
    }
}

/// Whether the name of one of the files tells an episode.
fn has_episode(files: &[FileEntry]) -> (r: bool)
    ensures
        r == tells_episode(entries_view(files@)),
{
    let ghost all = entries_view(files@);
    let mut i: usize = 0;
    while i < files.len()
        invariant
            i <= files@.len(),
            all == entries_view(files@),
            forall|j: int| 0 <= j < i ==> parsed((#[trigger] all[j]).name).episode is None,
        decreases files@.len() - i,
    {
        assert(all[i as int] == files@[i as int]@);
        if parse_file_name(files[i].name.as_str()).episode.is_some() {
            return true;
        }
        i = i + 1;
    }
    false
}

/// Whether a row holds what is known of a resource.
pub open spec fn tells_resource(
    r: ResourceRow,
    tmdb: Option<TmdbResult>,
    inferred: Option<ParsedFileNameView>,
    has_episodes: bool,
) -> bool {
    &&& r.title@ == match preferred(database_title(tmdb), local_title(inferred)) {
        Some(t) => t,
        None => "未识别资源"@,
    }
    &&& r.year == told_year(tmdb, inferred)
    &&& r.resource_type@ == kind_of(tmdb, has_episodes)
    &&& match tmdb {
        Some(t) => {
            &&& option_view(r.original_title) == Some(t.original_text())
            &&& r.tmdb_id == Some(t.id())
            &&& option_view(r.overview) == t.overview_text()
            &&& option_view(r.poster_url) == image_at(t.poster())
            &&& option_view(r.backdrop_url) == image_at(t.backdrop())
        },
        None => {
            &&& r.original_title is None
            &&& r.tmdb_id is None
            &&& r.overview is None
            &&& r.poster_url is None
            &&& r.backdrop_url is None
        },
    }
}

/// The resource to be stored.
pub fn resource_row(
    tmdb: Option<&TmdbResult>,
    inferred: Option<&ParsedFileName>,
    media_files: &[FileEntry],
) -> (r: ResourceRow)
    ensures
        tells_resource(
            r,
            known_entry(tmdb),
            said(inferred),
            tells_episode(entries_view(media_files@)),
        ),
{
    row_for(tmdb, inferred, has_episode(media_files))
}

/// The resource to be stored, given whether the name of one of its files tells an episode.
pub fn row_for(
    tmdb: Option<&TmdbResult>,
    inferred: Option<&ParsedFileName>,
    has_episodes: bool,
) -> (r: ResourceRow)
    ensures
        tells_resource(r, known_entry(tmdb), said(inferred), has_episodes),
{
    let title = match preferred_resource_title(tmdb, inferred) {
        Some(t) => t,
        None => "未识别资源".to_string(),
    };
    let year = year_told(tmdb, inferred);
    match tmdb {
        Some(t) => ResourceRow {
            title,
            original_title: Some(t.original_title().to_string()),
            year,
            resource_type: t.media_type().to_string(),
            tmdb_id: Some(t.tmdb_id()),
            overview: t.overview(),
            poster_url: t.poster_url(),
            backdrop_url: t.backdrop_url(),
        },
        None => ResourceRow {
            title,
            original_title: None,
            year,
            resource_type: if has_episodes {
                "tv".to_string()
            } else {
                "other".to_string()
            },
            tmdb_id: None,
            overview: None,
            poster_url: None,
            backdrop_url: None,
        },
    }
}

/// A file of a resource to be stored.
#[derive(Debug)]
pub struct ResourceFileRow {
    pub file_name: String,
    pub file_path: String,
    pub file_size: i64,
    pub file_ext: String,
    pub media_type: String,
    pub season: Option<i32>,
    pub episode: Option<i32>,
    pub quality: Option<String>,
    pub cloud_file_id: Option<String>,
    pub pick_code: Option<String>,
}

/// A file of a resource to be stored, over sequences of characters.
pub struct ResourceFileRowView {
    pub file_name: Seq<char>,
    pub file_path: Seq<char>,
    pub file_size: i64,
    pub file_ext: Seq<char>,
    pub media_type: Seq<char>,
    pub season: Option<i32>,
    pub episode: Option<i32>,
    pub quality: Option<Seq<char>>,
    pub cloud_file_id: Option<Seq<char>>,
    pub pick_code: Option<Seq<char>>,
}

impl View for ResourceFileRow {
    type V = ResourceFileRowView;

    open spec fn view(&self) -> ResourceFileRowView {
        ResourceFileRowView {
            file_name: self.file_name@,
            file_path: self.file_path@,
            file_size: self.file_size,
            file_ext: self.file_ext@,
            media_type: self.media_type@,
            season: self.season,
            episode: self.episode,
            quality: option_view(self.quality),
            cloud_file_id: option_view(self.cloud_file_id),
            pick_code: option_view(self.pick_code),
        }
    }
}

/// Files of a resource to be stored, over sequences of characters.
pub open spec fn rows_view(rows: Seq<ResourceFileRow>) -> Seq<ResourceFileRowView> {
    rows.map_values(|r: ResourceFileRow| r@)
}

/// The kind of a file that is a video, a subtitle or neither.
pub open spec fn media_type_of(video: bool, subtitle: bool) -> Seq<char> {
    if video {
        "video"@
    } else if subtitle {
        "subtitle"@
    } else {
        "other"@
    }
}

/// The kind of a file that is a video, a subtitle or neither.
pub fn media_type(video: bool, subtitle: bool) -> (r: &'static str)
    ensures
        r@ == media_type_of(video, subtitle),
{
    if video {
        "video"
    } else if subtitle {
        "subtitle"
    } else {
        "other"
    }
}

/// A file as it is stored, given the name under which it is kept and what that name says.
pub open spec fn row_of(
    file: FileEntryView,
    organized: Option<OrganizerResultView>,
    media_type: Seq<char>,
    name: ParsedFileNameView,
) -> ResourceFileRowView {
    ResourceFileRowView {
        file_name: match organized {
            Some(r) => r.final_name,
            None => file.name,
        },
        file_path: match organized {
            Some(r) => r.folder_id + "/"@ + r.final_name,
            None => file.path,
        },
        file_size: file.size,
        file_ext: name.ext,
        media_type,
        season: name.season,
        episode: name.episode,
        quality: name.quality,
        cloud_file_id: match organized {
            Some(r) => Some(r.file_id),
            None => file.file_id,
        },
        pick_code: file.pick_code,
    }
}

/// A file as it is stored.
pub open spec fn stored_file(
    file: FileEntryView,
    organized: Option<OrganizerResultView>,
) -> ResourceFileRowView {
    let name = match organized {
        Some(r) => r.final_name,
        None => file.name,
    };
    row_of(file, organized, media_type_of(is_video(name), is_subtitle(name)), parsed(name))
}

/// A kept file, over sequences of characters.
pub open spec fn result_view(result: Option<&OrganizerResult>) -> Option<OrganizerResultView> {
    match result {
        Some(r) => Some(r@),
        None => None,
    }
}

/// A file as it is stored, given the name under which it is kept and what that name says.
pub fn file_row(
    file: &FileEntry,
    organized: Option<&OrganizerResult>,
    media_type: &str,
    name: ParsedFileName,
) -> (r: ResourceFileRow)
    ensures
        r@ == row_of(file@, result_view(organized), media_type@, name@),
{
    let file_name = match organized {
        Some(o) => o.final_name.clone(),
        None => file.name.clone(),
    };
    let file_path = match organized {
        Some(o) => cat3(o.folder_id.as_str(), "/", o.final_name.as_str()),
        None => file.path.clone(),
    };
    let cloud_file_id = match organized {
        Some(o) => Some(o.file_id.clone()),
        None => copy_option(&file.file_id),
    };
    ResourceFileRow {
        file_name,
        file_path,
        file_size: file.size,
        file_ext: name.ext,
        media_type: media_type.to_string(),
        season: name.season,
        episode: name.episode,
        quality: name.quality,
        cloud_file_id,
        pick_code: copy_option(&file.pick_code),
    }
}

/// A file as it is stored.
pub fn resource_file_row(file: &FileEntry, organized: Option<&OrganizerResult>) -> (r:
    ResourceFileRow)
    ensures
        r@ == stored_file(file@, result_view(organized)),
{
    let name: &str = match organized {
        Some(o) => o.final_name.as_str(),
        None => file.name.as_str(),
    };
    let kind = media_type(is_video_file(name), is_subtitle_file(name));
    file_row(file, organized, kind, parse_file_name(name))
}

/// The first of the files with an identifier.
pub open spec fn file_with_id(files: Seq<FileEntryView>, id: Seq<char>, i: int) -> Option<
    FileEntryView,
>
    decreases files.len() - i,
{
    if i >= files.len() {
        None
    } else if files[i].file_id == Some(id) {
        Some(files[i])
    } else {
        file_with_id(files, id, i + 1)
    }
}

/// The file that a kept one was, or else one of which only the name, the identifier and the folder
/// are known.
pub open spec fn source_of(
    files: Seq<FileEntryView>,
    result: OrganizerResultView,
) -> FileEntryView {
    match file_with_id(files, result.file_id, 0) {
        Some(f) => f,
        None => FileEntryView {
            name: result.final_name,
            size: 0,
            path: result.final_name,
            is_dir: false,
            file_id: Some(result.file_id),
            pick_code: None,
            folder_id: result.folder_id,
        },
    }
}

/// The files of a resource as they are stored, where none was kept: all of them, but no folders.
pub open spec fn plain_rows(files: Seq<FileEntryView>) -> Seq<ResourceFileRowView>
    decreases files.len(),
{
    if files.len() == 0 {
        Seq::empty()
    } else if files.last().is_dir {
        plain_rows(files.drop_last())
    } else {
        plain_rows(files.drop_last()).push(stored_file(files.last(), None))
    }
}

/// The files of a resource as they are stored: those that were kept, or else all.
pub open spec fn stored_files(
    files: Seq<FileEntryView>,
    results: Seq<OrganizerResultView>,
) -> Seq<ResourceFileRowView> {
    if results.len() == 0 {
        plain_rows(files)
    } else {
        Seq::new(
            results.len(),
            |i: int| stored_file(source_of(files, results[i]), Some(results[i])),
        )
    }
}

/// The file that a kept one was.
fn source(files: &[FileEntry], result: &OrganizerResult) -> (r: FileEntry)
    ensures
        r@ == source_of(entries_view(files@), result@),
{
    let ghost all = entries_view(files@);
    let mut i: usize = 0;
    while i < files.len()
        invariant
            i <= files@.len(),
            all == entries_view(files@),
            file_with_id(all, result.file_id@, 0) == file_with_id(all, result.file_id@, i as int),
        decreases files@.len() - i,
    {
        assert(all[i as int] == files@[i as int]@);
        match &files[i].file_id {
            Some(id) => {
                if same(id.as_str(), result.file_id.as_str()) {
                    return files[i].clone();
                }
            },
            None => {},
        }
        i = i + 1;
    }
    FileEntry {
        name: result.final_name.clone(),
        size: 0,
        path: result.final_name.clone(),
        is_dir: false,
        file_id: Some(result.file_id.clone()),
        pick_code: None,
        folder_id: result.folder_id.clone(),
    }
}

/// The files of a resource as they are stored.
pub fn resource_file_rows(media_files: &[FileEntry], results: &[OrganizerResult]) -> (r: Vec<
    ResourceFileRow,
>)
    ensures
        rows_view(r@) == stored_files(entries_view(media_files@), results_view(results@)),
{
    let mut rows: Vec<ResourceFileRow> = Vec::new();
    let ghost files = entries_view(media_files@);
    let ghost kept = results_view(results@);
    if results.len() == 0 {
        let mut i: usize = 0;
        assert(rows_view(rows@) =~= plain_rows(files.take(0)));
        while i < media_files.len()
            invariant
                i <= media_files@.len(),
                files == entries_view(media_files@),
                rows_view(rows@) == plain_rows(files.take(i as int)),
            decreases media_files@.len() - i,
        {
            assert(files.take(i + 1).drop_last() =~= files.take(i as int));
            assert(files.take(i + 1).last() == media_files@[i as int]@);
            if !media_files[i].is_dir {
                let ghost before = rows@;
                let row = resource_file_row(&media_files[i], None);
                rows.push(row);
                assert(rows_view(rows@) =~= rows_view(before).push(row@));
            }
            i = i + 1;
        }
        assert(files.take(i as int) =~= files);
        return rows;
    }
    let mut i: usize = 0;
    while i < results.len()
        invariant
            i <= results@.len(),
            files == entries_view(media_files@),
            kept == results_view(results@),
            rows_view(rows@) =~= Seq::new(
                i as nat,
                |k: int| stored_file(source_of(files, kept[k]), Some(kept[k])),
            ),
        decreases results@.len() - i,
    {
        assert(kept[i as int] == results@[i as int]@);
        let file = source(media_files, &results[i]);
        let row = resource_file_row(&file, Some(&results[i]));
        let ghost before = rows@;
        rows.push(row);
        assert(rows_view(rows@) =~= rows_view(before).push(row@));
        i = i + 1;
    }
    rows
}

// ---------------------------------------------------------------------------
// Cleaning up
// ---------------------------------------------------------------------------

/// Whether the folder of a task may be deleted, as far as the identifiers tell: both it and the
/// folder that it stands in are known, they are not the same nor the root folder, and it has the
/// name of a folder of a task.
pub open spec fn may_clean(root: Seq<char>, folder: Seq<char>, name: Seq<char>) -> bool {
    &&& trimmed(root).len() > 0
    &&& root != "0"@
    &&& trimmed(folder).len() > 0
    &&& folder != "0"@
    &&& folder != root
    &&& begins_with(name, "hidden-task-"@)
}

/// Whether a folder stands, under a name, among entries.
pub open spec fn is_listed(entries: Seq<FileEntryView>, folder: Seq<char>, name: Seq<char>) -> bool {
    exists|i: int|
        0 <= i < entries.len() && (#[trigger] entries[i]).is_dir && entries[i].name == name
            && entries[i].file_id == Some(folder)
}

/// Whether the folder of a task may be deleted, as far as the identifiers tell.
pub fn cleanup_allowed(root: &str, folder: &str, name: &str) -> (r: bool)
    ensures
        r == may_clean(root@, folder@, name@),
{
    !trim(root).as_str().is_empty() && !same(root, "0") && !trim(folder).as_str().is_empty()
        && !same(folder, "0") && !same(folder, root) && starts_with(name, "hidden-task-")
}

/// Whether a folder stands, under a name, among entries.
pub fn cleanup_confirmed(entries: &[FileEntry], folder: &str, name: &str) -> (r: bool)
    ensures
        r == is_listed(entries_view(entries@), folder@, name@),
{
    let ghost all = entries_view(entries@);
    let mut i: usize = 0;
    while i < entries.len()
        invariant
            i <= entries@.len(),
            all == entries_view(entries@),
            forall|j: int|
                0 <= j < i ==> !((#[trigger] all[j]).is_dir && all[j].name == name@
                    && all[j].file_id == Some(folder@)),
        decreases entries@.len() - i,
    {
        assert(all[i as int] == entries@[i as int]@);
        if entries[i].is_dir && same(entries[i].name.as_str(), name) {
            match &entries[i].file_id {
                Some(id) => {
                    if same(id.as_str(), folder) {
                        return true;
                    }
                },
                None => {},
            }
        }
        i = i + 1;
    }
    false
}

// ---------------------------------------------------------------------------
// Laws
// ---------------------------------------------------------------------------

/// Whether identifiers are fit to be shared: none is blank, and none occurs twice.
pub open spec fn are_fit(ids: Seq<Seq<char>>) -> bool {
    &&& forall|i: int| 0 <= i < ids.len() ==> trimmed(#[trigger] ids[i]).len() > 0
    &&& forall|i: int, j: int| 0 <= i < j < ids.len() ==> ids[i] != ids[j]
}

/// One more identifier keeps them fit.
proof fn lemma_with_id(ids: Seq<Seq<char>>, id: Seq<char>)
    requires
        are_fit(ids),
    ensures
        are_fit(with_id(ids, id)),
{
    let more = with_id(ids, id);
    assert forall|i: int, j: int| 0 <= i < j < more.len() implies more[i] != more[j] by {
        if j == ids.len() {
            assert(ids.contains(more[i])) by {
                assert(ids[i] == more[i]);
            }
        }
    }
}

/// Those of entries keep them fit.
proof fn lemma_with_entries(ids: Seq<Seq<char>>, entries: Seq<FileEntryView>)
    requires
        are_fit(ids),
    ensures
        are_fit(with_entries(ids, entries)),
    decreases entries.len(),
{
    if entries.len() > 0 {
        lemma_with_entries(ids, entries.drop_last());
        if entries.last().file_id is Some {
            lemma_with_id(with_entries(ids, entries.drop_last()), entries.last().file_id->0);
        }
    }
}

/// Those of folders keep them fit.
proof fn lemma_with_folders(ids: Seq<Seq<char>>, results: Seq<OrganizerResultView>)
    requires
        are_fit(ids),
    ensures
        are_fit(with_folders(ids, results)),
    decreases results.len(),
{
    if results.len() > 0 {
        lemma_with_folders(ids, results.drop_last());
        lemma_with_id(with_folders(ids, results.drop_last()), results.last().folder_id);
    }
}

/// Those of files keep them fit, and come behind.
proof fn lemma_with_files(ids: Seq<Seq<char>>, results: Seq<OrganizerResultView>)
    requires
        are_fit(ids),
    ensures
        are_fit(with_files(ids, results)),
        ids.len() <= with_files(ids, results).len(),
        with_files(ids, results).take(ids.len() as int) == ids,
        forall|i: int|
            0 <= i < results.len() && trimmed(#[trigger] results[i].file_id).len() > 0
                ==> with_files(ids, results).contains(results[i].file_id),
    decreases results.len(),
{
    if results.len() > 0 {
        let rest = results.drop_last();
        lemma_with_files(ids, rest);
        let before = with_files(ids, rest);
        let after = with_files(ids, results);
        lemma_with_id(before, results.last().file_id);
        assert(after.take(ids.len() as int) =~= before.take(ids.len() as int));
        assert forall|i: int|
            0 <= i < results.len() && trimmed(#[trigger] results[i].file_id).len() > 0 implies after.contains(
            results[i].file_id,
        ) by {
            if i < rest.len() {
                assert(rest[i] == results[i]);
                assert(before.contains(rest[i].file_id));
                let k = choose|k: int| 0 <= k < before.len() && before[k] == rest[i].file_id;
                assert(after[k] == before[k]);
            } else if !before.contains(results[i].file_id) {
                assert(after[before.len() as int] == results[i].file_id);
            }
        }
    } else {
        assert(ids.take(ids.len() as int) =~= ids);
    }
}

/// What is shared is fit to be shared; the folders come first; and no file that was kept is left out
/// but one whose identifier is blank.
pub proof fn shared_ids_are_fit(results: Seq<OrganizerResultView>, temp_files: Seq<FileEntryView>)
    ensures
        are_fit(share_ids_of(results, temp_files)),
        results.len() > 0 ==> {
            let folders = with_folders(Seq::empty(), results);
            let all = share_ids_of(results, temp_files);
            &&& folders.len() <= all.len()
            &&& all.take(folders.len() as int) == folders
            &&& forall|i: int|
                0 <= i < results.len() && trimmed(#[trigger] results[i].file_id).len() > 0
                    ==> all.contains(results[i].file_id)
        },
{
    lemma_with_entries(Seq::empty(), temp_files);
    lemma_with_folders(Seq::empty(), results);
    lemma_with_files(with_folders(Seq::empty(), results), results);
}

/// What is stored of a resource has a row for each file that was kept, in their order, under the
/// name and the identifier that it was kept under.
pub proof fn kept_files_are_stored(
    files: Seq<FileEntryView>,
    results: Seq<OrganizerResultView>,
    i: int,
)
    requires
        0 <= i < results.len(),
    ensures
        stored_files(files, results).len() == results.len(),
        stored_files(files, results)[i].file_name == results[i].final_name,
        stored_files(files, results)[i].file_path == results[i].folder_id + "/"@
            + results[i].final_name,
        stored_files(files, results)[i].cloud_file_id == Some(results[i].file_id),
{
}

} // verus!
