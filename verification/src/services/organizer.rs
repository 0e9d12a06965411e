//! Tidying up: what happens to the files that were taken over.

use vstd::prelude::*;

#[allow(unused_imports)]
use crate::adapters::adapter_115::{entries_view, FileEntry, FileEntryView};
use crate::config::Config;
#[allow(unused_imports)]
use crate::services::title::{
    database_title, known_entry, local_title, preferred, preferred_resource_title, preferred_title,
    sanitize_name, sanitized,
};
#[allow(unused_imports)]
use crate::services::tmdb::{year_of, TmdbResult};
#[allow(unused_imports)]
use crate::text::number::{decimal_i64, decimal_int, two_digits, two_digits_i32};
use crate::text::path::extension;
#[allow(unused_imports)]
use crate::text::path::extension_of;
#[allow(unused_imports)]
use crate::text::{cat, cat3, lower_of, option_view, or_empty, same};
#[allow(unused_imports)]
use crate::utils::{
    either, is_ad, is_ad_file, is_video, is_video_file, parse_file_name, parsed, said,
    ParsedFileName, ParsedFileNameView,
};

verus! {

// ---------------------------------------------------------------------------
// Standard names
// ---------------------------------------------------------------------------

/// A year in brackets behind a space, nothing without a year.
pub open spec fn year_suffix(year: Option<i32>) -> Seq<char> {
    match year {
        Some(y) => " ("@ + decimal_int(y as int) + ")"@,
        None => Seq::empty(),
    }
}

/// The season and the episode; a season alone is not told.
pub open spec fn episode_suffix(season: Option<i32>, episode: Option<i32>) -> Seq<char> {
    match (season, episode) {
        (Some(s), Some(e)) => " - S"@ + two_digits(s as int) + "E"@ + two_digits(e as int),
        (None, Some(e)) => " - E"@ + two_digits(e as int),
        _ => Seq::empty(),
    }
}

/// The quality.
pub open spec fn quality_suffix(quality: Option<Seq<char>>) -> Seq<char> {
    match quality {
        Some(q) => " - "@ + q,
        None => Seq::empty(),
    }
}

/// The number of a film in the database; that of a series is not told.
pub open spec fn film_suffix(tmdb: Option<TmdbResult>) -> Seq<char> {
    match tmdb {
        Some(TmdbResult::Movie(m)) => " - {tmdb_id="@ + decimal_int(m.id as int) + "}"@,
        _ => Seq::empty(),
    }
}

/// The year that the database has.
pub open spec fn database_year(tmdb: Option<TmdbResult>) -> Option<i32> {
    match tmdb {
        Some(t) => year_of(t.date()),
        None => None,
    }
}

/// The standard name of a video, given what its name says: title, year, season and episode,
/// quality, and the number in the database. There is none without an extension or a title.
pub open spec fn standard_name(name: ParsedFileNameView, tmdb: Option<TmdbResult>) -> Option<
    Seq<char>,
> {
    match preferred(database_title(tmdb), Some(name.title)) {
        Some(title) => if name.ext.len() == 0 {
            None
        } else {
            Some(
                sanitized(title) + year_suffix(either(database_year(tmdb), name.year))
                    + episode_suffix(name.season, name.episode) + quality_suffix(name.quality)
                    + film_suffix(tmdb) + "."@ + name.ext,
            )
        },
        None => None,
    }
}

/// A year in brackets behind a space.
pub fn year_text(year: Option<i32>) -> (r: String)
    ensures
        r@ == year_suffix(year),
{
    match year {
        Some(y) => cat3(" (", decimal_i64(y as i64).as_str(), ")"),
        None => String::new(),
    }
}

/// The year that the database has.
pub fn year_in_database(tmdb: Option<&TmdbResult>) -> (r: Option<i32>)
    ensures
        r == database_year(known_entry(tmdb)),
{
    match tmdb {
        Some(t) => t.year(),
        None => None,
    }
}

/// The season and the episode.
fn episode_text(season: Option<i32>, episode: Option<i32>) -> (r: String)
    ensures
        r@ == episode_suffix(season, episode),
{
    match (season, episode) {
        (Some(s), Some(e)) => {
            let head = cat(" - S", two_digits_i32(s).as_str());
            cat3(head.as_str(), "E", two_digits_i32(e).as_str())
        },
        (None, Some(e)) => cat(" - E", two_digits_i32(e).as_str()),
        _ => String::new(),
    }
}

/// The standard name of a video, given what its name says.
pub fn standard_name_of(name: &ParsedFileName, tmdb: Option<&TmdbResult>) -> (r: Option<String>)
    ensures
        option_view(r) == standard_name(name@, known_entry(tmdb)),
{
    if name.ext.as_str().is_empty() {
        return None;
    }
    let title = match preferred_resource_title(tmdb, Some(name)) {
        Some(t) => sanitize_name(t.as_str()),
        None => {
            return None;
        },
    };
    let year = match year_in_database(tmdb) {
        Some(y) => Some(y),
        None => name.year,
    };
    let quality = match &name.quality {
        Some(q) => cat(" - ", q.as_str()),
        None => String::new(),
    };
    let film = match tmdb {
        Some(TmdbResult::Movie(m)) => cat3(" - {tmdb_id=", decimal_i64(m.id).as_str(), "}"),
        _ => String::new(),
    };
    let mut out = title;
    out.append(year_text(year).as_str());
    out.append(episode_text(name.season, name.episode).as_str());
    out.append(quality.as_str());
    out.append(film.as_str());
    out.append(".");
    out.append(name.ext.as_str());
    Some(out)
}

/// The standard name of a video.
pub fn build_standard_name(original: &str, tmdb: Option<&TmdbResult>) -> (r: Option<String>)
    ensures
        option_view(r) == standard_name(parsed(original@), known_entry(tmdb)),
{
    let name = parse_file_name(original);
    standard_name_of(&name, tmdb)
}

// ---------------------------------------------------------------------------
// The target folder
// ---------------------------------------------------------------------------

/// Whether an identifier names a folder other than the root folder.
pub open spec fn is_folder(id: Seq<char>) -> bool {
    id.len() > 0 && id != "0"@
}

/// Whether an identifier names a folder other than the root folder.
pub fn names_folder(id: &str) -> (r: bool)
    ensures
        r == is_folder(id@),
{
    !id.is_empty() && !same(id, "0")
}

/// The folder under which resources of a kind stand.
pub open spec fn category_of(tmdb: TmdbResult) -> Seq<char> {
    match tmdb {
        TmdbResult::Movie(_) => "Movies"@,
        TmdbResult::Tv(_) => "TV"@,
    }
}

/// The folder of a resource: title and year, and for a series its number in the database.
pub open spec fn resource_folder_of(tmdb: TmdbResult, local: Option<Seq<char>>) -> Seq<char> {
    let base = sanitized(or_empty(preferred(Some(tmdb.title_text()), local))) + year_suffix(
        year_of(tmdb.date()),
    );
    match tmdb {
        TmdbResult::Movie(_) => base,
        TmdbResult::Tv(t) => base + " {tmdb_id="@ + decimal_int(t.id as int) + "}"@,
    }
}

/// Where the files of a resource go.
#[derive(Debug)]
pub enum TargetFolder {
    /// Into this folder, as it is.
    Ready(String),
    /// Into the folder `name`, which is created in the folder `parent`; or into the folder `inside`,
    /// which is created in it then, if there is one.
    Create { parent: String, name: String, inside: Option<String> },
}

/// What becomes of a file.
#[derive(Debug)]
pub enum OrganizeStep {
    /// It is deleted.
    Delete { file_id: String },
    /// It is kept.
    Keep(KeptFile),
}

/// A file that is kept: it is renamed where there is a new name, and moved to where it belongs.
#[derive(Debug)]
pub struct KeptFile {
    pub file_id: String,
    /// The name that it has.
    pub name: String,
    pub new_name: Option<String>,
    /// The folder that it is in, empty where that is not known.
    pub folder_id: String,
    /// The folder that it belongs to.
    pub target: String,
}

/// A file that is kept, over sequences of characters.
pub struct KeptFileView {
    pub file_id: Seq<char>,
    pub name: Seq<char>,
    pub new_name: Option<Seq<char>>,
    pub folder_id: Seq<char>,
    pub target: Seq<char>,
}

impl View for KeptFile {
    type V = KeptFileView;

    open spec fn view(&self) -> KeptFileView {
        KeptFileView {
            file_id: self.file_id@,
            name: self.name@,
            new_name: option_view(self.new_name),
            folder_id: self.folder_id@,
            target: self.target@,
        }
    }
}

/// What becomes of a file, over sequences of characters.
pub enum OrganizeStepView {
    Delete { file_id: Seq<char> },
    Keep(KeptFileView),
}

impl View for OrganizeStep {
    type V = OrganizeStepView;

    open spec fn view(&self) -> OrganizeStepView {
        match self {
            OrganizeStep::Delete { file_id } => OrganizeStepView::Delete { file_id: file_id@ },
            OrganizeStep::Keep(kept) => OrganizeStepView::Keep(kept@),
        }
    }
}

/// A file that was kept: the name that it has now, the folder that it is in, and whether it was moved
/// there.
#[derive(Debug)]
pub struct OrganizerResult {
    pub file_id: String,
    pub final_name: String,
    pub folder_id: String,
    pub moved: bool,
}

/// A file that was kept, over sequences of characters.
pub struct OrganizerResultView {
    pub file_id: Seq<char>,
    pub final_name: Seq<char>,
    pub folder_id: Seq<char>,
    pub moved: bool,
}

impl View for OrganizerResult {
    type V = OrganizerResultView;

    open spec fn view(&self) -> OrganizerResultView {
        OrganizerResultView {
            file_id: self.file_id@,
            final_name: self.final_name@,
            folder_id: self.folder_id@,
            moved: self.moved,
        }
    }
}

/// Files that were kept, over sequences of characters.
pub open spec fn results_view(results: Seq<OrganizerResult>) -> Seq<OrganizerResultView> {
    results.map_values(|r: OrganizerResult| r@)
}

/// What becomes of files, over sequences of characters.
pub open spec fn steps_view(steps: Seq<OrganizeStep>) -> Seq<OrganizeStepView> {
    steps.map_values(|s: OrganizeStep| s@)
}

/// What a file that is kept has come to, when it was renamed or not, and moved or not. It has its
/// new name only where it was renamed, and is where it belongs only where it was moved; otherwise it
/// is still in the folder that it was in.
pub open spec fn outcome_of(kept: KeptFileView, renamed: bool, moved: bool) -> OrganizerResultView {
    OrganizerResultView {
        file_id: kept.file_id,
        final_name: match kept.new_name {
            Some(name) => if renamed {
                name
            } else {
                kept.name
            },
            None => kept.name,
        },
        folder_id: if moved {
            kept.target
        } else {
            kept.folder_id
        },
        moved,
    }
}

impl KeptFile {
    /// What the file has come to, when it was renamed or not, and moved or not.
    pub fn outcome(self, renamed: bool, moved: bool) -> (r: OrganizerResult)
        ensures
            r@ == outcome_of(self@, renamed, moved),
    {
        let final_name = match self.new_name {
            Some(name) => if renamed {
                name
            } else {
                self.name
            },
            None => self.name,
        };
        let folder_id = if moved {
            self.target
        } else {
            self.folder_id
        };
        OrganizerResult { file_id: self.file_id, final_name, folder_id, moved }
    }
}

// ---------------------------------------------------------------------------
// What becomes of each file
// ---------------------------------------------------------------------------

/// Whether an extension, in lower case, is that of a link or of an information file.
pub open spec fn is_junk_extension(ext: Seq<char>) -> bool {
    ext == "url"@ || ext == "lnk"@ || ext == "nfo"@
}

/// Whether a file is deleted: it is advertising or junk, or a video that is known to be smaller
/// than `min_bytes`.
pub open spec fn is_unwanted(file: FileEntryView, min_bytes: int) -> bool {
    ||| is_ad(file.name)
    ||| is_junk_extension(lower_of(extension_of(file.name)))
    ||| is_video(file.name) && is_too_small(file.size, min_bytes)
}

/// Whether a size is known, and less than `min_bytes`.
pub open spec fn is_too_small(size: i64, min_bytes: int) -> bool {
    0 < size < min_bytes
}

/// The name that a file is given: videos have a standard name where there is one.
pub open spec fn final_name_of(name: Seq<char>, tmdb: Option<TmdbResult>) -> Seq<char> {
    if is_video(name) {
        match standard_name(parsed(name), tmdb) {
            Some(n) => n,
            None => name,
        }
    } else {
        name
    }
}

/// The folder that files go to: the root folder `0`, where no other is named.
pub open spec fn destination(target: Seq<char>) -> Seq<char> {
    if is_folder(target) {
        target
    } else {
        "0"@
    }
}

/// What becomes of a file that is unwanted or not, and is given a name. A folder, and a file without
/// an identifier, is left alone.
pub open spec fn step_given(
    file: FileEntryView,
    unwanted: bool,
    name: Seq<char>,
    target: Seq<char>,
) -> Option<OrganizeStepView> {
    if file.is_dir || file.file_id is None {
        None
    } else if unwanted {
        Some(OrganizeStepView::Delete { file_id: file.file_id->0 })
    } else {
        Some(
            OrganizeStepView::Keep(
                KeptFileView {
                    file_id: file.file_id->0,
                    name: file.name,
                    new_name: if name == file.name {
                        None
                    } else {
                        Some(name)
                    },
                    folder_id: file.folder_id,
                    target: destination(target),
                },
            ),
        )
    }
}

/// What becomes of a file.
pub open spec fn step_for(
    file: FileEntryView,
    tmdb: Option<TmdbResult>,
    min_bytes: int,
    target: Seq<char>,
) -> Option<OrganizeStepView> {
    step_given(file, is_unwanted(file, min_bytes), final_name_of(file.name, tmdb), target)
}

/// What becomes of files, one after the other.
pub open spec fn all_steps(
    files: Seq<FileEntryView>,
    tmdb: Option<TmdbResult>,
    min_bytes: int,
    target: Seq<char>,
) -> Seq<OrganizeStepView>
    decreases files.len(),
{
    if files.len() == 0 {
        Seq::empty()
    } else {
        let before = all_steps(files.drop_last(), tmdb, min_bytes, target);
        match step_for(files.last(), tmdb, min_bytes, target) {
            Some(step) => before.push(step),
            None => before,
        }
    }
}

/// The size in bytes under which a video is not kept.
pub open spec fn min_video_bytes(config: Config) -> int {
    config.clean_min_video_size_mb * 1024 * 1024
}

/// Tidies up after a transfer, as is configured.
pub struct Organizer<'a> {
    pub config: &'a Config,
}

impl<'a> Organizer<'a> {
    /// An organizer with a configuration.
    pub fn new(config: &'a Config) -> (r: Self)
        ensures
            r.config == config,
    {
        Organizer { config }
    }

    /// Whether a file is deleted.
    pub fn should_delete(&self, file: &FileEntry) -> (r: bool)
        ensures
            r == is_unwanted(file@, min_video_bytes(*self.config)),
    {
        let name = file.name.as_str();
        is_ad_file(name) || junk_extension(extension(name).as_str().to_lowercase().as_str()) || (
        is_video_file(name) && self.too_small(file.size))
    }

    /// Whether a size is known, and less than a video has to have.
    pub fn too_small(&self, size: i64) -> (r: bool)
        ensures
            r == is_too_small(size, min_video_bytes(*self.config)),
    {
        let min: u128 = self.config.clean_min_video_size_mb as u128 * 1024 * 1024;
        size > 0 && (size as u128) < min
    }

    /// Where the files of a resource go: a folder of their own where the database knows them and a
    /// folder is configured, and otherwise the configured folder.
    pub fn ensure_target_folder(
        &self,
        tmdb: Option<&TmdbResult>,
        inferred: Option<&ParsedFileName>,
    ) -> (r: TargetFolder)
        ensures
            match r {
                TargetFolder::Ready(folder) => {
                    &&& folder@ == self.config.account_115_root_folder_id@
                    &&& !is_folder(folder@) || tmdb is None
                },
                TargetFolder::Create { parent, name, inside } => {
                    &&& is_folder(self.config.account_115_root_folder_id@)
                    &&& tmdb is Some
                    &&& parent@ == self.config.account_115_root_folder_id@
                    &&& name@ == category_of(*tmdb->0)
                    &&& option_view(inside) == Some(
                        resource_folder_of(*tmdb->0, local_title(said(inferred))),
                    )
                },
            },
    {
        let root = &self.config.account_115_root_folder_id;
        if !names_folder(root.as_str()) {
            return TargetFolder::Ready(root.clone());
        }
        match tmdb {
            Some(t) => {
                let category = match t {
                    TmdbResult::Movie(_) => "Movies".to_string(),
                    TmdbResult::Tv(_) => "TV".to_string(),
                };
                let local: Option<&str> = match inferred {
                    Some(p) => Some(p.title.as_str()),
                    None => None,
                };
                let title = sanitize_name(preferred_title(tmdb, local).as_str());
                let base = cat(title.as_str(), year_text(t.year()).as_str());
                let resource = match t {
                    TmdbResult::Movie(_) => base,
                    TmdbResult::Tv(s) => {
                        let head = cat3(base.as_str(), " {tmdb_id=", decimal_i64(s.id).as_str());
                        cat(head.as_str(), "}")
                    },
                };
                TargetFolder::Create {
                    parent: root.clone(),
                    name: category,
                    inside: Some(resource),
                }
            },
            None => TargetFolder::Ready(root.clone()),
        }
    }

    /// How it goes on when a folder was created, or could not be: with the folder in it, if there is
    /// one to create, and otherwise with the files. In place of a folder that could not be created
    /// the configured one is used.
    pub fn created(&self, inside: Option<String>, created: Option<String>) -> (r: TargetFolder)
        ensures
            ({
                let folder = match created {
                    Some(folder) => folder@,
                    None => self.config.account_115_root_folder_id@,
                };
                match inside {
                    Some(name) => {
                        &&& r is Create
                        &&& r->parent@ == folder
                        &&& r->name@ == name@
                        &&& r->inside is None
                    },
                    None => r is Ready && r->Ready_0@ == folder,
                }
            }),
    {
        let folder = match created {
            Some(folder) => folder,
            None => self.config.account_115_root_folder_id.clone(),
        };
        match inside {
            Some(name) => TargetFolder::Create { parent: folder, name, inside: None },
            None => TargetFolder::Ready(folder),
        }
    }

    /// Plans what becomes of files that go to a folder.
    pub fn organize(
        &self,
        files: &[FileEntry],
        tmdb: Option<&TmdbResult>,
        target_folder: &str,
    ) -> (r: Vec<OrganizeStep>)
        ensures
            steps_view(r@) == all_steps(
                entries_view(files@),
                known_entry(tmdb),
                min_video_bytes(*self.config),
                target_folder@,
            ),
    {
        let mut steps: Vec<OrganizeStep> = Vec::new();
        let ghost all = entries_view(files@);
        let ghost t = known_entry(tmdb);
        let ghost min = min_video_bytes(*self.config);
        let mut i: usize = 0;
        assert(steps_view(steps@) =~= all_steps(all.take(0), t, min, target_folder@));
        while i < files.len()
            invariant
                i <= files@.len(),
                all == entries_view(files@),
                t == known_entry(tmdb),
                min == min_video_bytes(*self.config),
                steps_view(steps@) == all_steps(all.take(i as int), t, min, target_folder@),
            decreases files@.len() - i,
        {
            assert(all.take(i + 1).drop_last() =~= all.take(i as int));
            assert(all.take(i + 1).last() == files@[i as int]@);
            let ghost before = steps@;
            match self.plan_file(&files[i], tmdb, target_folder) {
                Some(step) => {
                    steps.push(step);
                    assert(steps_view(steps@) =~= steps_view(before).push(step@));
                },
                None => {},
            }
            i = i + 1;
        }
        assert(all.take(i as int) =~= all);
        steps
    }

    /// Plans what becomes of one file.
    fn plan_file(
        &self,
        file: &FileEntry,
        tmdb: Option<&TmdbResult>,
        target_folder: &str,
    ) -> (r: Option<OrganizeStep>)
        ensures
            step_view(r) == step_for(
                file@,
                known_entry(tmdb),
                min_video_bytes(*self.config),
                target_folder@,
            ),
    {
        let unwanted = self.should_delete(file);
        let name = if is_video_file(file.name.as_str()) {
            match build_standard_name(file.name.as_str(), tmdb) {
                Some(n) => n,
                None => file.name.clone(),
            }
        } else {
            file.name.clone()
        };
        plan_step(file, unwanted, name, target_folder)
    }
}

/// Whether an extension, in lower case, is that of a link or of an information file.
pub fn junk_extension(ext: &str) -> (r: bool)
    ensures
        r == is_junk_extension(ext@),
{
    same(ext, "url") || same(ext, "lnk") || same(ext, "nfo")
}

/// What becomes of a file, over sequences of characters.
pub open spec fn step_view(step: Option<OrganizeStep>) -> Option<OrganizeStepView> {
    match step {
        Some(s) => Some(s@),
        None => None,
    }
}

/// Plans what becomes of a file that is unwanted or not, and is given a name.
pub fn plan_step(
    file: &FileEntry,
    unwanted: bool,
    name: String,
    target_folder: &str,
) -> (r: Option<OrganizeStep>)
    ensures
        step_view(r) == step_given(file@, unwanted, name@, target_folder@),
{
    if file.is_dir {
        return None;
    }
    let file_id = match &file.file_id {
        Some(id) => id.clone(),
        None => {
            return None;
        },
    };
    if unwanted {
        return Some(OrganizeStep::Delete { file_id });
    }
    let new_name = if same(name.as_str(), file.name.as_str()) {
        None
    } else {
        Some(name)
    };
    Some(
        OrganizeStep::Keep(
            KeptFile {
                file_id,
                name: file.name.clone(),
                new_name,
                folder_id: file.folder_id.clone(),
                target: if names_folder(target_folder) {
                    target_folder.to_string()
                } else {
                    "0".to_string()
                },
            },
        ),
    )
}

// ---------------------------------------------------------------------------
// Laws
// ---------------------------------------------------------------------------

/// A file is either deleted or kept: it is deleted where it is unwanted, and only then; a folder is
/// left alone; and only videos are given a new name.
pub proof fn files_are_deleted_or_kept(
    file: FileEntryView,
    tmdb: Option<TmdbResult>,
    min_bytes: int,
    target: Seq<char>,
)
    ensures
        match step_for(file, tmdb, min_bytes, target) {
            Some(OrganizeStepView::Delete { file_id }) => {
                &&& !file.is_dir
                &&& file.file_id == Some(file_id)
                &&& is_unwanted(file, min_bytes)
            },
            Some(OrganizeStepView::Keep(kept)) => {
                &&& !file.is_dir
                &&& file.file_id == Some(kept.file_id)
                &&& !is_unwanted(file, min_bytes)
                &&& kept.name == file.name
                &&& kept.new_name is Some ==> is_video(file.name)
            },
            None => file.is_dir || file.file_id is None,
        },
{
}

/// Each step is about one of the files.
pub proof fn steps_are_about_files(
    files: Seq<FileEntryView>,
    tmdb: Option<TmdbResult>,
    min_bytes: int,
    target: Seq<char>,
    i: int,
) -> (k: int)
    requires
        0 <= i < all_steps(files, tmdb, min_bytes, target).len(),
    ensures
        0 <= k < files.len(),
        step_for(files[k], tmdb, min_bytes, target) == Some(
            all_steps(files, tmdb, min_bytes, target)[i],
        ),
    decreases files.len(),
{
    let before = all_steps(files.drop_last(), tmdb, min_bytes, target);
    if i < before.len() {
        let k = steps_are_about_files(files.drop_last(), tmdb, min_bytes, target, i);
        assert(files.drop_last()[k] == files[k]);
        assert(all_steps(files, tmdb, min_bytes, target)[i] == before[i]);
        k
    } else {
        files.len() - 1
    }
}

/// A file that is kept is told of as it is in the end: with the standard name where it was renamed,
/// and otherwise with the name that it had; in the folder that files go to where it was moved, and
/// otherwise in the folder that it was in.
pub proof fn results_tell_how_files_are(
    file: FileEntryView,
    tmdb: Option<TmdbResult>,
    min_bytes: int,
    target: Seq<char>,
    renamed: bool,
    moved: bool,
)
    requires
        step_for(file, tmdb, min_bytes, target) is Some,
        step_for(file, tmdb, min_bytes, target)->0 is Keep,
    ensures
        ({
            let kept = step_for(file, tmdb, min_bytes, target)->0->Keep_0;
            let result = outcome_of(kept, renamed, moved);
            &&& file.file_id == Some(result.file_id)
            &&& result.final_name == if renamed {
                final_name_of(file.name, tmdb)
            } else {
                file.name
            }
            &&& result.folder_id == if moved {
                destination(target)
            } else {
                file.folder_id
            }
            &&& result.moved == moved
        }),
{
}

} // verus!
