//! Laws of single operations: what each of them returns for what it is given.

use vstd::prelude::*;

#[allow(unused_imports)]
use crate::adapters::adapter_115::{entries_view, FileEntry, QuotaInfo};
#[allow(unused_imports)]
use crate::config::Config;
#[allow(unused_imports)]
use crate::db::models::TaskStatus;
#[allow(unused_imports)]
use crate::laws::library::{
    folders_begin_with_the_title, is_allowed, standard_names_are_made_of_parts, NameParts,
};
#[allow(unused_imports)]
use crate::laws::names::{
    ad_keywords, files_are_told_by_their_names, junk_extensions, junk_has_three_extensions,
    subtitle_extensions, subtitles_have_seven_extensions, video_extensions,
    videos_have_twelve_extensions,
};
#[allow(unused_imports)]
use crate::laws::records::{
    kept_files_tell_what_their_names_say, limits_are_the_largest_that_is_taken, space_is_kept_free,
};
#[allow(unused_imports)]
use crate::laws::titles::{is_titled, the_best_title_is_used, titles_stand_in_front};
#[allow(unused_imports)]
use crate::pattern::{match_view, PatternMatch};
#[allow(unused_imports)]
use crate::services::organizer::{
    all_steps, build_standard_name, is_unwanted, junk_extension, results_view, standard_name_of,
    steps_view, OrganizeStep, Organizer, OrganizerResult, TargetFolder,
};
#[allow(unused_imports)]
use crate::services::title::{
    has_cjk, preferred, preferred_resource_title, preferred_title, sanitize_name, sanitized,
};
#[allow(unused_imports)]
use crate::services::tmdb::TmdbResult;
#[allow(unused_imports)]
use crate::share_link::{
    clean_link, code_in, is_share_link, is_share_link_of, pick_code_in, share_id, share_id_of,
    without_code,
};
#[allow(unused_imports)]
use crate::text::number::{decimal, decimal_int};
#[allow(unused_imports)]
use crate::text::{has_text, list_view, lower_of, option_view, trimmed};
#[allow(unused_imports)]
use crate::utils::{
    assemble, clean_title, cleaned, format_size, is_ad_file, is_subtitle_file, is_video_file,
    parse_file_name, parsed, size_text, subtitle_extension, video_extension, ParsedFileName,
};
#[allow(unused_imports)]
use crate::workers::import_plan::{
    build_display_title, build_share_file_ids, check_limits, check_space, cleanup_allowed,
    cleanup_confirmed, entry_ids, extract_share_id, file_row, ids_of, infer, inferred_from,
    is_listed, lookup_for, may_clean, name_view, resource_file_rows, resource_row, rows_view,
    share_ids_of, share_title, share_title_of, tells_episode, tells_resource, Lookup,
    ResourceFileRow, ResourceRow,
};
#[allow(unused_imports)]
use crate::workers::import_worker::{expected, follows, Event, ImportRun, Step};

verus! {

/// A title is assembled from what stands in front of the first of the marks.
pub proof fn assembled_titles_stand_in_front(
    ext: String,
    norm: &str,
    quality: Option<PatternMatch>,
    season_episode: Option<PatternMatch>,
    year: Option<PatternMatch>,
    tech: Option<PatternMatch>,
    r: ParsedFileName,
) -> (cut: int)
    requires
        call_ensures(assemble, (ext, norm, quality, season_episode, year, tech), r),
    ensures
        0 <= cut <= norm@.len(),
        r.title@ == cleaned(norm@.take(cut)),
        season_episode matches Some(m) ==> cut <= m.start,
        year matches Some(m) ==> cut <= m.start,
        tech matches Some(m) ==> cut <= m.start,
        cut == norm@.len() || (season_episode matches Some(m) && cut == m.start) || (
        year matches Some(m) && cut == m.start) || (tech matches Some(m) && cut == m.start),
        r.ext@ == ext@,
{
    titles_stand_in_front(
        ext@,
        norm@,
        match_view(quality),
        match_view(season_episode),
        match_view(year),
        match_view(tech),
    )
}

/// Reading a file name, cleaning a title and making a name legal are what they are called.
pub proof fn names_are_read_cleaned_and_made_legal(
    s: &str,
    name: ParsedFileName,
    title: String,
    legal: String,
)
    requires
        call_ensures(parse_file_name, (s,), name),
        call_ensures(clean_title, (s,), title),
        call_ensures(sanitize_name, (s,), legal),
    ensures
        name@ == parsed(s@),
        title@ == cleaned(s@),
        legal@ == sanitized(s@),
{
}

/// Extensions are told apart by the lists of them.
pub proof fn extensions_are_told_by_their_lists(
    ext: &str,
    video: bool,
    subtitle: bool,
    junk: bool,
)
    requires
        call_ensures(video_extension, (ext,), video),
        call_ensures(subtitle_extension, (ext,), subtitle),
        call_ensures(junk_extension, (ext,), junk),
    ensures
        video <==> video_extensions().contains(ext@),
        subtitle <==> subtitle_extensions().contains(ext@),
        junk <==> junk_extensions().contains(ext@),
{
    videos_have_twelve_extensions(ext@);
    subtitles_have_seven_extensions(ext@);
    junk_has_three_extensions(ext@);
}

/// Files are told apart by their names, whatever the case of the letters.
pub proof fn file_kinds_are_told_by_names(name: &str, video: bool, subtitle: bool, ad: bool)
    requires
        call_ensures(is_video_file, (name,), video),
        call_ensures(is_subtitle_file, (name,), subtitle),
        call_ensures(is_ad_file, (name,), ad),
    ensures
        video <==> video_extensions().contains(
            lower_of(crate::text::path::extension_of(name@)),
        ),
        subtitle <==> subtitle_extensions().contains(
            lower_of(crate::text::path::extension_of(name@)),
        ),
        ad <==> exists|k: int|
            0 <= k < ad_keywords().len() && has_text(lower_of(name@), #[trigger] ad_keywords()[k]),
{
    files_are_told_by_their_names(name@);
}

/// What the database tells of the title.
pub open spec fn title_known(tmdb: Option<&TmdbResult>) -> Option<Seq<char>> {
    match tmdb {
        Some(TmdbResult::Movie(m)) => Some(m.title@),
        Some(TmdbResult::Tv(t)) => Some(t.name@),
        None => None,
    }
}

/// What the file name tells of the title.
pub open spec fn title_read(name: Option<&ParsedFileName>) -> Option<Seq<char>> {
    match name {
        Some(n) => Some(n.title@),
        None => None,
    }
}

/// The title that is used is the preferred one of that of the database and the local one, of a film
/// as of a series.
pub proof fn used_titles_are_the_preferred_ones(
    tmdb: Option<&TmdbResult>,
    name: Option<&ParsedFileName>,
    local: Option<&str>,
    resource: Option<String>,
    title: String,
)
    requires
        call_ensures(preferred_resource_title, (tmdb, name), resource),
        call_ensures(preferred_title, (tmdb, local), title),
    ensures
        option_view(resource) == preferred(title_known(tmdb), title_read(name)),
        ({
            let given = match local {
                Some(l) => Some(l@),
                None => None,
            };
            &&& preferred(title_known(tmdb), given) matches Some(t) ==> title@ == t
            &&& preferred(title_known(tmdb), given) is None ==> title@.len() == 0
        }),
{
}

/// A standard name begins with a legal title: the preferred one, made legal. No character in front
/// of the quality is one that file names may not hold, and the name ends with the extension.
pub proof fn standard_names_begin_with_legal_titles(
    name: &ParsedFileName,
    tmdb: Option<&TmdbResult>,
    r: Option<String>,
) -> (p: NameParts)
    requires
        call_ensures(standard_name_of, (name, tmdb), r),
    ensures
        r is Some <==> name.ext@.len() > 0 && (is_titled(Some(name.title@)) || is_titled(
            title_known(tmdb),
        )),
        r matches Some(n) ==> {
            &&& n@ == p.title + p.year + p.episode + p.quality + p.number + seq!['.'] + name.ext@
            &&& sanitized(p.title) == p.title
            &&& is_allowed(p.title + p.year + p.episode)
            &&& preferred(title_known(tmdb), Some(name.title@)) matches Some(t) && p.title
                == sanitized(t)
        },
{
    let entry = match tmdb {
        Some(t) => Some(*t),
        None => None,
    };
    standard_names_are_made_of_parts(name@, entry)
}

/// A file's standard name is that of what its name says.
pub proof fn standard_names_are_made_of_file_names(
    original: &str,
    tmdb: Option<&TmdbResult>,
    name: ParsedFileName,
    read: Option<String>,
    built: Option<String>,
)
    requires
        call_ensures(parse_file_name, (original,), name),
        call_ensures(standard_name_of, (&name, tmdb), read),
        call_ensures(build_standard_name, (original, tmdb), built),
    ensures
        option_view(built) == option_view(read),
{
}

/// Where files go. Without a root folder, or without an entry of the database, they stay in the root
/// folder. Otherwise a folder is made in the root folder for films or for series, and in it the
/// folder of the resource, which begins with the title that is preferred, made legal: the local one
/// where it is Chinese and that of the database is not, of a film as of a series.
pub proof fn files_go_to_the_folder_of_their_title(
    organizer: &Organizer,
    tmdb: Option<&TmdbResult>,
    name: Option<&ParsedFileName>,
    r: TargetFolder,
) -> (p: (Seq<char>, Seq<char>, Seq<char>))
    requires
        call_ensures(Organizer::ensure_target_folder, (organizer, tmdb, name), r),
    ensures
        ({
            let root = organizer.config.account_115_root_folder_id@;
            &&& r is Create <==> root.len() > 0 && root != "0"@ && tmdb is Some
            &&& r matches TargetFolder::Ready(folder) ==> folder@ == root
            &&& r matches TargetFolder::Create { parent, name: category, inside } ==> {
                &&& parent@ == root
                &&& category@ == if tmdb->0 is Movie {
                    "Movies"@
                } else {
                    "TV"@
                }
                &&& option_view(inside) == Some(p.0 + p.1 + p.2)
                &&& is_allowed(p.0 + p.1 + p.2)
                &&& sanitized(p.0) == p.0
                &&& preferred(title_known(tmdb), title_read(name)) matches Some(t) ==> p.0
                    == sanitized(t)
                &&& is_titled(title_read(name)) && has_cjk(trimmed(name->0.title@)) && !has_cjk(
                    trimmed(title_known(tmdb)->0),
                ) ==> p.0 == sanitized(trimmed(name->0.title@))
            }
        }),
{
    match tmdb {
        Some(t) => folders_begin_with_the_title(*t, title_read(name)),
        None => (Seq::empty(), Seq::empty(), Seq::empty()),
    }
}

/// A folder that was created holds the one that is to be made in it; where it could not be created
/// the root folder does. Where none is to be made, the files go there.
pub proof fn folders_are_made_in_each_other(
    organizer: &Organizer,
    inside: Option<String>,
    created: Option<String>,
    r: TargetFolder,
)
    requires
        call_ensures(Organizer::created, (organizer, inside, created), r),
    ensures
        ({
            let folder = match created {
                Some(f) => f@,
                None => organizer.config.account_115_root_folder_id@,
            };
            &&& inside is Some <==> r is Create
            &&& r matches TargetFolder::Ready(f) ==> f@ == folder
            &&& r matches TargetFolder::Create { parent, name, inside: next } ==> parent@ == folder
                && Some(name@) == option_view(inside) && next is None
        }),
{
}

/// Tidying up goes through the files with the entry of the database, the smallest size of a video
/// in bytes, and the target folder that are given.
pub proof fn files_are_tidied_up_with_what_is_known(
    organizer: &Organizer,
    files: &[FileEntry],
    file: &FileEntry,
    tmdb: Option<&TmdbResult>,
    target: &str,
    r: Vec<OrganizeStep>,
    unwanted: bool,
    small: bool,
)
    requires
        call_ensures(Organizer::organize, (organizer, files, tmdb, target), r),
        call_ensures(Organizer::should_delete, (organizer, file), unwanted),
        call_ensures(Organizer::too_small, (organizer, file.size), small),
    ensures
        steps_view(r@) == all_steps(
            entries_view(files@),
            match tmdb {
                Some(t) => Some(*t),
                None => None,
            },
            organizer.config.clean_min_video_size_mb * 1048576,
            target@,
        ),
        unwanted == is_unwanted(file@, organizer.config.clean_min_video_size_mb * 1048576),
        small <==> 0 < file.size && file.size < organizer.config.clean_min_video_size_mb * 1048576,
{
    assert(organizer.config.clean_min_video_size_mb * 1024 * 1024
        == organizer.config.clean_min_video_size_mb * 1048576) by (nonlinear_arith);
}

/// A row tells of a file what it is given: the season, the episode, the quality and the extension
/// of the name, the kind, and the size and the pick code of the file; and where it was kept, the
/// name, the place and the identifier that it was kept with.
pub proof fn rows_tell_what_they_are_given(
    file: &FileEntry,
    organized: Option<&OrganizerResult>,
    kind: &str,
    name: ParsedFileName,
    r: ResourceFileRow,
)
    requires
        call_ensures(file_row, (file, organized, kind, name), r),
    ensures
        r.season == name.season,
        r.episode == name.episode,
        option_view(r.quality) == option_view(name.quality),
        r.file_ext@ == name.ext@,
        r.media_type@ == kind@,
        r.file_size == file.size,
        option_view(r.pick_code) == option_view(file.pick_code),
        organized matches Some(o) ==> {
            &&& r.file_name@ == o.final_name@
            &&& r.file_path@ == o.folder_id@ + seq!['/'] + o.final_name@
            &&& option_view(r.cloud_file_id) == Some(o.file_id@)
        },
        organized is None ==> {
            &&& r.file_name@ == file.name@
            &&& r.file_path@ == file.path@
            &&& option_view(r.cloud_file_id) == option_view(file.file_id)
        },
{
    reveal_strlit("/");
    assert("/"@ =~= seq!['/']);
    assert(r@.file_name == r.file_name@ && r@.season == r.season);
}

/// For every kept file a row is stored that tells what the name says under which it was kept, and
/// the size and the pick code of the file that it was.
pub proof fn a_row_is_stored_for_every_kept_file(
    files: &[FileEntry],
    results: &[OrganizerResult],
    r: Vec<ResourceFileRow>,
    i: int,
    k: int,
)
    requires
        call_ensures(resource_file_rows, (files, results), r),
        0 <= i < results@.len(),
        0 <= k < files@.len(),
        option_view(files@[k].file_id) == Some(results@[i].file_id@),
        forall|j: int|
            0 <= j < k ==> option_view((#[trigger] files@[j]).file_id) != Some(
                results@[i].file_id@,
            ),
    ensures
        r@.len() == results@.len(),
        r@[i].season == parsed(results@[i].final_name@).season,
        r@[i].episode == parsed(results@[i].final_name@).episode,
        option_view(r@[i].quality) == parsed(results@[i].final_name@).quality,
        r@[i].file_ext@ == parsed(results@[i].final_name@).ext,
        r@[i].file_name@ == results@[i].final_name@,
        option_view(r@[i].cloud_file_id) == Some(results@[i].file_id@),
        r@[i].file_size == files@[k].size,
        option_view(r@[i].pick_code) == option_view(files@[k].pick_code),
{
    let es = entries_view(files@);
    let rs = results_view(results@);
    assert(rs.len() == results@.len());
    assert(rs[i] == results@[i]@);
    assert(es[k] == files@[k]@);
    assert forall|j: int| 0 <= j < k implies (#[trigger] es[j]).file_id != Some(rs[i].file_id) by {
        assert(es[j] == files@[j]@);
    }
    kept_files_tell_what_their_names_say(es, rs, i, k);
    assert(rows_view(r@).len() == r@.len());
    assert(rows_view(r@)[i] == r@[i]@);
}

/// What is stored of a resource, what it is shared under and what of it is shared come from what is
/// known of it.
pub proof fn resources_are_stored_and_shared_as_known(
    tmdb: Option<&TmdbResult>,
    name: Option<&ParsedFileName>,
    files: &[FileEntry],
    received: &[FileEntry],
    results: &[OrganizerResult],
    task_id: i64,
    row: ResourceRow,
    title: String,
    shown: Option<String>,
    ids: Vec<String>,
    inferred: Option<ParsedFileName>,
)
    requires
        call_ensures(resource_row, (tmdb, name, files), row),
        call_ensures(share_title, (tmdb, name, task_id), title),
        call_ensures(build_display_title, (tmdb, name), shown),
        call_ensures(build_share_file_ids, (results, received), ids),
        call_ensures(infer, (files,), inferred),
    ensures
        ({
            let entry = match tmdb {
                Some(t) => Some(*t),
                None => None,
            };
            let said = match name {
                Some(n) => Some(n@),
                None => None,
            };
            &&& tells_resource(row, entry, said, tells_episode(entries_view(files@)))
            &&& title@ == share_title_of(entry, said, task_id)
            &&& shown is Some <==> is_titled(title_known(tmdb)) || is_titled(title_read(name))
            &&& shown matches Some(t) ==> t@ == title@
            &&& list_view(ids@) == share_ids_of(results_view(results@), entries_view(received@))
            &&& name_view(inferred) == inferred_from(entries_view(files@))
        }),
{
    the_best_title_is_used(title_known(tmdb), title_read(name));
}

/// The limits and the space are looked at before anything is transferred: what is within them
/// passes, and nothing else does.
pub proof fn shares_are_checked_before_they_are_taken(
    size: i64,
    count: usize,
    quota: &QuotaInfo,
    config: &Config,
    limits: Result<(), String>,
    space: Result<(), String>,
)
    requires
        call_ensures(check_limits, (size, count, config), limits),
        call_ensures(check_space, (quota, size, config), space),
    ensures
        limits is Ok <==> (config.transfer_max_size_gb == 0 || size <= config.transfer_max_size_gb
            * 1073741824) && (config.transfer_max_file_count == 0 || count
            <= config.transfer_max_file_count),
        space is Ok <==> quota.total <= 0 || quota.free - size >= config.transfer_min_free_space_gb
            * 1073741824,
{
    limits_are_the_largest_that_is_taken(size as int, count as int, *config);
    space_is_kept_free(*quota, size as int, *config);
}

/// What is read from a link, and what is stored of it.
pub proof fn links_are_read_and_cleaned(
    url: &str,
    id: Option<String>,
    extracted: Result<String, String>,
    code: Option<String>,
    cleaned_url: String,
    is_link: bool,
)
    requires
        call_ensures(share_id, (url,), id),
        call_ensures(extract_share_id, (url,), extracted),
        call_ensures(pick_code_in, (url,), code),
        call_ensures(clean_link, (url,), cleaned_url),
        call_ensures(is_share_link, (url,), is_link),
    ensures
        option_view(id) == share_id_of(url@),
        extracted is Ok <==> share_id_of(url@) is Some,
        extracted matches Ok(e) ==> share_id_of(url@) == Some(e@),
        option_view(code) == code_in(url@),
        cleaned_url@ == without_code(url@),
        is_link == is_share_link_of(url@),
{
}

/// Why a share is not taken is told: the size or the number of its files and the limit, or the space
/// that is free, that is needed, and that is to stay free.
pub proof fn refused_shares_are_told_why(
    size: i64,
    count: usize,
    quota: &QuotaInfo,
    config: &Config,
    limits: Result<(), String>,
    space: Result<(), String>,
)
    requires
        call_ensures(check_limits, (size, count, config), limits),
        call_ensures(check_space, (quota, size, config), space),
    ensures
        limits matches Err(e) ==> if config.transfer_max_size_gb > 0 && size
            > config.transfer_max_size_gb * 1073741824 {
            e@ == "分享文件总大小超出单次转存上限："@ + decimal_int(size as int) + " bytes > "@
                + decimal((config.transfer_max_size_gb * 1073741824) as nat) + " bytes（"@ + decimal(
                config.transfer_max_size_gb as nat,
            ) + " GB）"@
        } else {
            e@ == "分享文件数量超出单次转存上限："@ + decimal(count as nat) + " > "@ + decimal(
                config.transfer_max_file_count as nat,
            )
        },
        space matches Err(e) ==> e@ == "存储空间不足：剩余 "@ + decimal_int(quota.free as int)
            + " bytes，需要转存 "@ + decimal_int(size as int) + " bytes 并保留 "@ + decimal(
            (config.transfer_min_free_space_gb * 1073741824) as nat,
        ) + " bytes 余量"@,
{
    assert(config.transfer_max_size_gb * 1024 * 1024 * 1024 == config.transfer_max_size_gb
        * 1073741824) by (nonlinear_arith);
    assert(config.transfer_min_free_space_gb * 1024 * 1024 * 1024
        == config.transfer_min_free_space_gb * 1073741824) by (nonlinear_arith);
}

/// What is looked up is looked up by what the name says.
pub proof fn lookups_are_made_for_names(
    name: &Option<ParsedFileName>,
    config: &Config,
    lookup: Lookup,
)
    requires
        call_ensures(lookup_for, (name, config), lookup),
    ensures
        lookup is Nothing <==> *name is None || config.tmdb_api_key@.len() == 0,
        lookup is Series ==> (*name)->0.season is Some || (*name)->0.episode is Some,
        lookup is Anything ==> (*name)->0.season is None && (*name)->0.episode is None,
        lookup matches Lookup::Series { title, year } ==> title@ == (*name)->0.title@ && year
            == (*name)->0.year,
        lookup matches Lookup::Anything { title, year } ==> title@ == (*name)->0.title@ && year
            == (*name)->0.year,
{
}

/// An import starts by loading its task, and goes on by what happened.
pub proof fn imports_go_on_by_what_happened(
    task_id: i64,
    config: Config,
    run: ImportRun,
    event: Event,
    first: Step,
    next: Step,
)
    requires
        call_ensures(ImportRun::start, (task_id, config), first),
        expected(run.stage, event),
        call_ensures(ImportRun::advance, (run, event), next),
    ensures
        first.run.task_id == task_id && first.run.config == config,
        first.run.stage is Loading,
        first.action is Load,
        first.mark matches Some(m) && m.status == TaskStatus::Parsing,
        follows(run, event, next),
{
}

/// A size in words, and the identifiers of entries, are what they are called.
pub proof fn sizes_and_identifiers_are_told(
    bytes: i64,
    entries: &[FileEntry],
    text: String,
    ids: Vec<String>,
)
    requires
        call_ensures(format_size, (bytes,), text),
        call_ensures(entry_ids, (entries,), ids),
    ensures
        text@ == size_text(bytes as int),
        list_view(ids@) == ids_of(entries_view(entries@)),
{
}

/// Which folders may go and which are there is decided by what they are called.
pub proof fn folders_go_by_their_names(
    root: &str,
    folder: &str,
    name: &str,
    entries: &[FileEntry],
    allowed: bool,
    confirmed: bool,
)
    requires
        call_ensures(cleanup_allowed, (root, folder, name), allowed),
        call_ensures(cleanup_confirmed, (entries, folder, name), confirmed),
    ensures
        allowed == may_clean(root@, folder@, name@),
        confirmed == is_listed(entries_view(entries@), folder@, name@),
{
}

} // verus!
