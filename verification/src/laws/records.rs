//! Laws of what an import looks up, stores and shares.

use vstd::prelude::*;

#[allow(unused_imports)]
use crate::adapters::adapter_115::{FileEntryView, QuotaInfo};
#[allow(unused_imports)]
use crate::config::Config;
#[allow(unused_imports)]
use crate::laws::library::tells_year;
#[allow(unused_imports)]
use crate::laws::names::{
    files_are_told_by_their_names, subtitle_extensions, video_extensions,
};
#[allow(unused_imports)]
use crate::laws::texts::{blank_texts_vanish, is_blank};
#[allow(unused_imports)]
use crate::laws::titles::{is_titled, the_best_title_is_used};
#[allow(unused_imports)]
use crate::services::organizer::{is_folder, year_suffix, OrganizerResultView};
#[allow(unused_imports)]
use crate::services::title::preferred;
#[allow(unused_imports)]
use crate::services::tmdb::{year_of, TmdbResult};
#[allow(unused_imports)]
use crate::text::number::{decimal_int, decimal_int_is_read_back};
#[allow(unused_imports)]
use crate::text::path::extension_of;
#[allow(unused_imports)]
use crate::text::{begins_with, lower_of, option_view};
#[allow(unused_imports)]
use crate::utils::{is_video, parsed, ParsedFileName, ParsedFileNameView};
#[allow(unused_imports)]
use crate::workers::import_plan::{
    file_with_id, first_titled_of, ids_of, inferred_from, is_listed, is_too_large, is_too_many,
    lacks_space, lookup_fits, may_clean, plain_rows, share_ids_of, share_title_of, source_of,
    stored_file, stored_files, temp_folder_name, tells_episode, tells_resource, video_names,
    with_entries, with_files, with_folders, with_id, Lookup, ResourceFileRowView, ResourceRow,
};

verus! {

/// What kind of file a name tells of.
pub open spec fn is_media_type(name: Seq<char>, kind: Seq<char>) -> bool {
    let ext = lower_of(extension_of(name));
    if video_extensions().contains(ext) {
        kind == seq!['v', 'i', 'd', 'e', 'o']
    } else if subtitle_extensions().contains(ext) {
        kind == seq!['s', 'u', 'b', 't', 'i', 't', 'l', 'e']
    } else {
        kind == seq!['o', 't', 'h', 'e', 'r']
    }
}

/// Whether a row tells of a file what its name says.
pub open spec fn tells_name(row: ResourceFileRowView, name: Seq<char>) -> bool {
    &&& row.file_name == name
    &&& row.season == parsed(name).season
    &&& row.episode == parsed(name).episode
    &&& row.quality == parsed(name).quality
    &&& row.file_ext == parsed(name).ext
    &&& is_media_type(name, row.media_type)
}

/// The kind of a stored file is that of its name.
proof fn lemma_media_type(file: FileEntryView, organized: Option<OrganizerResultView>)
    ensures
        tells_name(
            stored_file(file, organized),
            match organized {
                Some(r) => r.final_name,
                None => file.name,
            },
        ),
{
    let name = match organized {
        Some(r) => r.final_name,
        None => file.name,
    };
    files_are_told_by_their_names(name);
    reveal_strlit("video");
    reveal_strlit("subtitle");
    reveal_strlit("other");
    assert("video"@ =~= seq!['v', 'i', 'd', 'e', 'o']);
    assert("subtitle"@ =~= seq!['s', 'u', 'b', 't', 'i', 't', 'l', 'e']);
    assert("other"@ =~= seq!['o', 't', 'h', 'e', 'r']);
}

/// The file that an identifier is found at is the first one that has it.
proof fn lemma_file_with_id(files: Seq<FileEntryView>, id: Seq<char>, from: int, k: int)
    requires
        0 <= from <= k <= files.len(),
        forall|j: int| from <= j < k ==> (#[trigger] files[j]).file_id != Some(id),
        k < files.len() ==> files[k].file_id == Some(id),
    ensures
        file_with_id(files, id, from) == if k < files.len() {
            Some(files[k])
        } else {
            None
        },
    decreases k - from,
{
    if from < k {
        lemma_file_with_id(files, id, from + 1, k);
    }
}

/// Each kept file is stored under the name that it was kept under, with what this name says: the
/// season, the episode, the quality, the extension and the kind. Its place and its identifier are
/// those that it was kept with. Its size and its pick code are those of the file among the source
/// files that has its identifier.
pub proof fn kept_files_tell_what_their_names_say(
    files: Seq<FileEntryView>,
    results: Seq<OrganizerResultView>,
    i: int,
    k: int,
)
    requires
        0 <= i < results.len(),
        0 <= k < files.len(),
        files[k].file_id == Some(results[i].file_id),
        forall|j: int|
            0 <= j < k ==> (#[trigger] files[j]).file_id != Some(results[i].file_id),
    ensures
        ({
            let row = stored_files(files, results)[i];
            &&& tells_name(row, results[i].final_name)
            &&& row.season == parsed(results[i].final_name).season
            &&& row.episode == parsed(results[i].final_name).episode
            &&& row.quality == parsed(results[i].final_name).quality
            &&& row.file_ext == parsed(results[i].final_name).ext
            &&& row.file_path == results[i].folder_id + seq!['/'] + results[i].final_name
            &&& row.cloud_file_id == Some(results[i].file_id)
            &&& row.file_size == files[k].size
            &&& row.pick_code == files[k].pick_code
        }),
{
    reveal_strlit("/");
    assert("/"@ =~= seq!['/']);
    lemma_file_with_id(files, results[i].file_id, 0, k);
    lemma_media_type(files[k], Some(results[i]));
}

/// A kept file that is not among the source files is stored all the same, with what is known of it:
/// its size is zero, and there is no pick code.
pub proof fn kept_files_without_a_source_are_stored(
    files: Seq<FileEntryView>,
    results: Seq<OrganizerResultView>,
    i: int,
)
    requires
        0 <= i < results.len(),
        forall|j: int|
            0 <= j < files.len() ==> (#[trigger] files[j]).file_id != Some(results[i].file_id),
    ensures
        ({
            let row = stored_files(files, results)[i];
            &&& tells_name(row, results[i].final_name)
            &&& row.file_path == results[i].folder_id + seq!['/'] + results[i].final_name
            &&& row.cloud_file_id == Some(results[i].file_id)
            &&& row.file_size == 0
            &&& row.pick_code is None
        }),
{
    reveal_strlit("/");
    assert("/"@ =~= seq!['/']);
    lemma_file_with_id(files, results[i].file_id, 0, files.len() as int);
    lemma_media_type(source_of(files, results[i]), Some(results[i]));
}

/// As many files are stored as were kept; where none was, the source files are stored as they are,
/// one by one and in their order, without the folders among them.
pub proof fn source_files_are_stored_in_order(a: Seq<FileEntryView>, b: Seq<FileEntryView>)
    ensures
        stored_files(a + b, Seq::empty()) == stored_files(a, Seq::empty()) + stored_files(
            b,
            Seq::empty(),
        ),
        b.len() == 1 && b[0].is_dir ==> stored_files(b, Seq::empty()).len() == 0,
        b.len() == 1 && !b[0].is_dir ==> {
            let rows = stored_files(b, Seq::empty());
            &&& rows.len() == 1
            &&& tells_name(rows[0], b[0].name)
            &&& rows[0].file_path == b[0].path
            &&& rows[0].file_size == b[0].size
            &&& rows[0].cloud_file_id == b[0].file_id
            &&& rows[0].pick_code == b[0].pick_code
        },
    decreases b.len(),
{
    if b.len() == 0 {
        assert(a + b =~= a);
        assert(plain_rows(a) + plain_rows(b) =~= plain_rows(a));
    } else {
        source_files_are_stored_in_order(a, b.drop_last());
        assert((a + b).drop_last() =~= a + b.drop_last());
        assert((a + b).last() == b.last());
        lemma_media_type(b.last(), None);
        assert(plain_rows(a + b) =~= plain_rows(a) + plain_rows(b));
        if b.len() == 1 {
            assert(b.drop_last() =~= Seq::<FileEntryView>::empty());
            assert(plain_rows(b.drop_last()).len() == 0);
        }
    }
}

/// The names of videos are read one by one, in the order of the files.
proof fn lemma_video_names(a: Seq<FileEntryView>, b: Seq<FileEntryView>)
    ensures
        video_names(a + b) == video_names(a) + video_names(b),
    decreases b.len(),
{
    if b.len() == 0 {
        assert(a + b =~= a);
        assert(video_names(a) + video_names(b) =~= video_names(a));
    } else {
        lemma_video_names(a, b.drop_last());
        assert((a + b).drop_last() =~= a + b.drop_last());
        assert((a + b).last() == b.last());
        assert(video_names(a + b) =~= video_names(a) + video_names(b));
    }
}

/// The first titled name of two lists is that of the first list, if there is one.
proof fn lemma_first_titled(a: Seq<ParsedFileNameView>, b: Seq<ParsedFileNameView>, i: int)
    requires
        0 <= i <= a.len(),
    ensures
        first_titled_of(a + b, i) == if first_titled_of(a, i) is Some {
            first_titled_of(a, i)
        } else {
            first_titled_of(b, 0)
        },
    decreases a.len() - i,
{
    if i < a.len() {
        assert((a + b)[i] == a[i]);
        lemma_first_titled(a, b, i + 1);
    } else {
        lemma_shifted_titled(a, b, 0);
    }
}

/// The first titled name behind a list is that of what stands behind it.
proof fn lemma_shifted_titled(a: Seq<ParsedFileNameView>, b: Seq<ParsedFileNameView>, j: int)
    requires
        0 <= j <= b.len(),
    ensures
        first_titled_of(a + b, a.len() + j) == first_titled_of(b, j),
    decreases b.len() - j,
{
    if j < b.len() {
        assert((a + b)[a.len() + j] == b[j]);
        lemma_shifted_titled(a, b, j + 1);
    }
}

/// What is taken for the resource's name is what the first file says that is a video and tells a
/// title; folders and other files have no say.
pub proof fn the_first_titled_video_tells_the_name(a: Seq<FileEntryView>, b: Seq<FileEntryView>)
    ensures
        inferred_from(Seq::empty()) is None,
        inferred_from(a + b) == if inferred_from(a) is Some {
            inferred_from(a)
        } else {
            inferred_from(b)
        },
        a.len() == 1 ==> inferred_from(a) == if !a[0].is_dir && is_video(a[0].name) && parsed(
            a[0].name,
        ).title.len() > 0 {
            Some(parsed(a[0].name))
        } else {
            None
        },
{
    lemma_video_names(a, b);
    lemma_first_titled(video_names(a), video_names(b), 0);
    if a.len() == 1 {
        assert(a.drop_last() =~= Seq::<FileEntryView>::empty());
        let names = video_names(a);
        assert(video_names(a.drop_last()).len() == 0);
        if names.len() == 1 {
            assert(names[0] == parsed(a[0].name));
            assert(first_titled_of(names, 1) is None);
        }
    }
}

/// How a resource is looked up: not at all without a name or a key; as a series where the name tells
/// a season or an episode; else as anything. What is asked for is the title and the year of the
/// name.
pub proof fn lookups_ask_for_the_name(lookup: Lookup, name: Option<ParsedFileName>, config: Config)
    requires
        lookup_fits(lookup, name, config),
    ensures
        lookup is Nothing <==> name is None || config.tmdb_api_key@.len() == 0,
        name matches Some(p) ==> config.tmdb_api_key@.len() > 0 ==> {
            &&& lookup is Series <==> p.season is Some || p.episode is Some
            &&& lookup is Anything <==> p.season is None && p.episode is None
            &&& lookup matches Lookup::Series { title, year } ==> title@ == p.title@ && year
                == p.year
            &&& lookup matches Lookup::Anything { title, year } ==> title@ == p.title@ && year
                == p.year
        },
{
}

/// The identifiers of entries are collected one by one, in their order; what has none is passed
/// over.
pub proof fn identifiers_are_collected_in_order(a: Seq<FileEntryView>, b: Seq<FileEntryView>)
    ensures
        ids_of(a + b) == ids_of(a) + ids_of(b),
        b.len() == 1 ==> ids_of(b) == match b[0].file_id {
            Some(id) => seq![id],
            None => Seq::empty(),
        },
    decreases b.len(),
{
    if b.len() == 0 {
        assert(a + b =~= a);
        assert(ids_of(a) + ids_of(b) =~= ids_of(a));
    } else {
        identifiers_are_collected_in_order(a, b.drop_last());
        assert((a + b).drop_last() =~= a + b.drop_last());
        assert((a + b).last() == b.last());
        assert(ids_of(a + b) =~= ids_of(a) + ids_of(b));
        if b.len() == 1 {
            assert(b.drop_last() =~= Seq::<FileEntryView>::empty());
            assert(ids_of(b.drop_last()) =~= Seq::<Seq<char>>::empty());
        }
    }
}

/// A share is refused that is larger than the limit, in gigabytes of 1073741824 bytes, or has more
/// files than the limit; a limit of zero is none. What is just as large as the limit is not refused.
pub proof fn limits_are_the_largest_that_is_taken(size: int, count: int, config: Config)
    ensures
        is_too_large(size, config) <==> config.transfer_max_size_gb != 0 && size
            > config.transfer_max_size_gb * 1073741824,
        is_too_many(count, config) <==> config.transfer_max_file_count != 0 && count
            > config.transfer_max_file_count,
{
    assert(config.transfer_max_size_gb * 1024 * 1024 * 1024 == config.transfer_max_size_gb
        * 1073741824) by (nonlinear_arith);
}

/// There is space exactly if as much stays free behind the transfer as the configuration asks for,
/// in gigabytes of 1073741824 bytes, or if the quota is not known.
pub proof fn space_is_kept_free(quota: QuotaInfo, size: int, config: Config)
    ensures
        !lacks_space(quota, size, config) <==> quota.total <= 0 || quota.free - size
            >= config.transfer_min_free_space_gb * 1073741824,
{
    assert(config.transfer_min_free_space_gb * 1024 * 1024 * 1024
        == config.transfer_min_free_space_gb * 1073741824) by (nonlinear_arith);
}

/// Each task has a folder of its own, and every such folder may be told by its name.
pub proof fn tasks_have_folders_of_their_own(a: i64, b: i64)
    ensures
        temp_folder_name(a) == temp_folder_name(b) ==> a == b,
        begins_with(temp_folder_name(a), "hidden-task-"@),
        temp_folder_name(a).skip("hidden-task-"@.len() as int) == decimal_int(a as int),
{
    let p = "hidden-task-"@;
    let x = decimal_int(a as int);
    let y = decimal_int(b as int);
    assert((p + x).subrange(0, p.len() as int) =~= p);
    assert((p + x).skip(p.len() as int) =~= x);
    assert((p + y).skip(p.len() as int) =~= y);
    decimal_int_is_read_back(a as int);
    decimal_int_is_read_back(b as int);
}

/// An identifier is added behind the others, once, unless it is white space alone.
pub proof fn identifiers_are_added_once(ids: Seq<Seq<char>>, id: Seq<char>)
    ensures
        is_blank(id) ==> with_id(ids, id) == ids,
        !is_blank(id) ==> with_id(ids, id).contains(id),
        ids.contains(id) ==> with_id(ids, id) == ids,
        !is_blank(id) && !ids.contains(id) ==> with_id(ids, id) == ids + seq![id],
{
    blank_texts_vanish(id);
    if !is_blank(id) && !ids.contains(id) {
        assert(ids.push(id).last() == id);
        assert(ids.push(id) =~= ids + seq![id]);
        assert(ids.push(id)[ids.len() as int] == id);
    }
}

/// Adding the identifiers of two lists is adding those of the first one and then those of the
/// second.
pub proof fn shared_identifiers_are_added_in_order(
    ids: Seq<Seq<char>>,
    entries: Seq<FileEntryView>,
    more: Seq<FileEntryView>,
    results: Seq<OrganizerResultView>,
    others: Seq<OrganizerResultView>,
)
    ensures
        with_entries(ids, entries + more) == with_entries(with_entries(ids, entries), more),
        more.len() == 1 ==> with_entries(ids, more) == match more[0].file_id {
            Some(id) => with_id(ids, id),
            None => ids,
        },
        with_folders(ids, results + others) == with_folders(with_folders(ids, results), others),
        others.len() == 1 ==> with_folders(ids, others) == if others[0].folder_id.len() > 0
            && others[0].folder_id != seq!['0'] {
            with_id(ids, others[0].folder_id)
        } else {
            ids
        },
        with_files(ids, results + others) == with_files(with_files(ids, results), others),
        others.len() == 1 ==> with_files(ids, others) == with_id(ids, others[0].file_id),
    decreases more.len() + others.len(),
{
    reveal_strlit("0");
    assert("0"@ =~= seq!['0']);
    if more.len() == 0 {
        assert(entries + more =~= entries);
    } else {
        shared_identifiers_are_added_in_order(ids, entries, more.drop_last(), results, others);
        assert((entries + more).drop_last() =~= entries + more.drop_last());
        assert((entries + more).last() == more.last());
        if more.len() == 1 {
            assert(more.drop_last().len() == 0);
            assert(with_entries(ids, more.drop_last()) == ids);
        }
    }
    if others.len() == 0 {
        assert(results + others =~= results);
    } else {
        shared_identifiers_are_added_in_order(ids, entries, more, results, others.drop_last());
        assert((results + others).drop_last() =~= results + others.drop_last());
        assert((results + others).last() == others.last());
        if others.len() == 1 {
            assert(others.drop_last().len() == 0);
            assert(with_folders(ids, others.drop_last()) == ids);
            assert(with_files(ids, others.drop_last()) == ids);
        }
    }
}

/// Only what was there before, or comes from an entry, is there afterwards.
proof fn lemma_entries_added(ids: Seq<Seq<char>>, entries: Seq<FileEntryView>, x: Seq<char>)
    ensures
        with_entries(ids, entries).contains(x) <==> ids.contains(x) || !is_blank(x) && exists|k: int|
            0 <= k < entries.len() && (#[trigger] entries[k]).file_id == Some(x),
    decreases entries.len(),
{
    if entries.len() > 0 {
        let front = entries.drop_last();
        let last = entries.last();
        lemma_entries_added(ids, front, x);
        assert forall|k: int| 0 <= k < front.len() implies front[k] == entries[k] by {}
        if let Some(id) = last.file_id {
            lemma_one_added(with_entries(ids, front), id, x);
        }
        if exists|k: int| 0 <= k < entries.len() && (#[trigger] entries[k]).file_id == Some(x) {
            let k = choose|k: int|
                0 <= k < entries.len() && (#[trigger] entries[k]).file_id == Some(x);
            if k < front.len() {
                assert(front[k].file_id == Some(x));
            }
        }
        if exists|k: int| 0 <= k < front.len() && (#[trigger] front[k]).file_id == Some(x) {
            let k = choose|k: int| 0 <= k < front.len() && (#[trigger] front[k]).file_id == Some(x);
            assert(entries[k].file_id == Some(x));
        }
        if last.file_id == Some(x) {
            assert(entries[entries.len() - 1].file_id == Some(x));
        }
    }
}

/// Adding an identifier adds it and nothing else.
proof fn lemma_one_added(ids: Seq<Seq<char>>, id: Seq<char>, x: Seq<char>)
    ensures
        with_id(ids, id).contains(x) <==> ids.contains(x) || x == id && !is_blank(id),
{
    identifiers_are_added_once(ids, id);
    if !is_blank(id) && !ids.contains(id) {
        let all = ids + seq![id];
        if all.contains(x) {
            let k = choose|k: int| 0 <= k < all.len() && all[k] == x;
            if k < ids.len() {
                assert(ids[k] == x);
            }
        }
        if ids.contains(x) {
            let k = choose|k: int| 0 <= k < ids.len() && ids[k] == x;
            assert(all[k] == x);
        }
    }
}

/// Only what was there before, or comes from a folder of a result, is there afterwards.
proof fn lemma_folders_added(ids: Seq<Seq<char>>, results: Seq<OrganizerResultView>, x: Seq<char>)
    ensures
        with_folders(ids, results).contains(x) <==> ids.contains(x) || !is_blank(x) && x != "0"@
            && exists|k: int| 0 <= k < results.len() && (#[trigger] results[k]).folder_id == x,
    decreases results.len(),
{
    if results.len() > 0 {
        let front = results.drop_last();
        let last = results.last();
        lemma_folders_added(ids, front, x);
        if is_folder(last.folder_id) {
            lemma_one_added(with_folders(ids, front), last.folder_id, x);
        }
        if exists|k: int| 0 <= k < results.len() && (#[trigger] results[k]).folder_id == x {
            let k = choose|k: int| 0 <= k < results.len() && (#[trigger] results[k]).folder_id == x;
            if k < front.len() {
                assert(front[k].folder_id == x);
            }
        }
        if exists|k: int| 0 <= k < front.len() && (#[trigger] front[k]).folder_id == x {
            let k = choose|k: int| 0 <= k < front.len() && (#[trigger] front[k]).folder_id == x;
            assert(results[k].folder_id == x);
        }
        if last.folder_id == x {
            assert(results[results.len() - 1].folder_id == x);
            if x.len() == 0 {
                assert(is_blank(x));
            }
        }
    }
}

/// Only what was there before, or is the identifier of a result, is there afterwards.
proof fn lemma_files_added(ids: Seq<Seq<char>>, results: Seq<OrganizerResultView>, x: Seq<char>)
    ensures
        with_files(ids, results).contains(x) <==> ids.contains(x) || !is_blank(x) && exists|k: int|
            0 <= k < results.len() && (#[trigger] results[k]).file_id == x,
    decreases results.len(),
{
    if results.len() > 0 {
        let front = results.drop_last();
        let last = results.last();
        lemma_files_added(ids, front, x);
        lemma_one_added(with_files(ids, front), last.file_id, x);
        if exists|k: int| 0 <= k < results.len() && (#[trigger] results[k]).file_id == x {
            let k = choose|k: int| 0 <= k < results.len() && (#[trigger] results[k]).file_id == x;
            if k < front.len() {
                assert(front[k].file_id == x);
            }
        }
        if exists|k: int| 0 <= k < front.len() && (#[trigger] front[k]).file_id == x {
            let k = choose|k: int| 0 <= k < front.len() && (#[trigger] front[k]).file_id == x;
            assert(results[k].file_id == x);
        }
        if last.file_id == x {
            assert(results[results.len() - 1].file_id == x);
        }
    }
}

/// What is shared: of kept files, the folders that they are in, but for the root, and the files
/// themselves; where none was kept, what was received. Nothing else is, nor what has an identifier
/// of white space alone.
pub proof fn kept_files_and_their_folders_are_shared(
    results: Seq<OrganizerResultView>,
    received: Seq<FileEntryView>,
    x: Seq<char>,
)
    ensures
        results.len() > 0 ==> (share_ids_of(results, received).contains(x) <==> !is_blank(x) && ((x
            != "0"@ && exists|k: int|
            0 <= k < results.len() && (#[trigger] results[k]).folder_id == x) || exists|k: int|
            0 <= k < results.len() && (#[trigger] results[k]).file_id == x)),
        results.len() == 0 ==> (share_ids_of(results, received).contains(x) <==> !is_blank(x)
            && exists|k: int|
            0 <= k < received.len() && (#[trigger] received[k]).file_id == Some(x)),
{
    lemma_entries_added(Seq::empty(), received, x);
    lemma_folders_added(Seq::empty(), results, x);
    lemma_files_added(with_folders(Seq::empty(), results), results, x);
}

/// The title of a share, and of what is displayed: the preferred one with the year, that of the
/// database rather than that of the name; the number of the task where there is no title.
pub proof fn shares_are_called_by_title_and_year(
    tmdb: Option<TmdbResult>,
    name: Option<ParsedFileNameView>,
    task_id: i64,
) -> (p: (Seq<char>, Seq<char>))
    ensures
        ({
            let (title, year) = p;
            let known = match tmdb {
                Some(TmdbResult::Movie(m)) => Some(m.title@),
                Some(TmdbResult::Tv(t)) => Some(t.name@),
                None => None,
            };
            let local = match name {
                Some(n) => Some(n.title),
                None => None,
            };
            let dated = match tmdb {
                Some(TmdbResult::Movie(m)) => year_of(option_view(m.release_date)),
                Some(TmdbResult::Tv(t)) => year_of(option_view(t.first_air_date)),
                None => None,
            };
            &&& share_title_of(tmdb, name, task_id) == title + year
            &&& is_titled(known) || is_titled(local) ==> {
                &&& preferred(known, local) == Some(title)
                &&& tells_year(
                    year,
                    if dated is Some {
                        dated
                    } else {
                        match name {
                            Some(n) => n.year,
                            None => None,
                        }
                    },
                )
            }
            &&& !is_titled(known) && !is_titled(local) ==> {
                &&& title == "Hidden 导入任务 #"@
                &&& year == decimal_int(task_id as int)
            }
        }),
{
    let known = match tmdb {
        Some(TmdbResult::Movie(m)) => Some(m.title@),
        Some(TmdbResult::Tv(t)) => Some(t.name@),
        None => None,
    };
    let local = match name {
        Some(n) => Some(n.title),
        None => None,
    };
    the_best_title_is_used(known, local);
    let told = crate::workers::import_plan::told_year(tmdb, name);
    reveal_strlit(" (");
    reveal_strlit(")");
    assert(" ("@ =~= seq![' ', '(']);
    assert(")"@ =~= seq![')']);
    match preferred(known, local) {
        Some(t) => (t, year_suffix(told)),
        None => ("Hidden 导入任务 #"@, decimal_int(task_id as int)),
    }
}

/// Whether a link is that of an image of the database; there is none where there is no path to it.
pub open spec fn is_image(link: Option<String>, path: Option<String>) -> bool {
    match path {
        Some(p) => if p@.len() > 0 {
            option_view(link) == Some("https://image.tmdb.org/t/p/w500"@ + p@)
        } else {
            link is None
        },
        None => link is None,
    }
}

/// What is stored of a resource: the preferred title, the year of the database rather than that of
/// the name, the kind, and of a known film or series what the database tells of it. Of one that is
/// not known nothing is made up: it is a series if a file tells an episode, and something else if
/// none does.
pub proof fn resources_tell_what_the_database_tells(
    row: ResourceRow,
    tmdb: Option<TmdbResult>,
    name: Option<ParsedFileNameView>,
    has_episodes: bool,
)
    requires
        tells_resource(row, tmdb, name, has_episodes),
    ensures
        row.title@ == match preferred(
            match tmdb {
                Some(TmdbResult::Movie(m)) => Some(m.title@),
                Some(TmdbResult::Tv(t)) => Some(t.name@),
                None => None,
            },
            match name {
                Some(n) => Some(n.title),
                None => None,
            },
        ) {
            Some(t) => t,
            None => "未识别资源"@,
        },
        tmdb matches Some(TmdbResult::Movie(m)) ==> {
            &&& row.resource_type@ == seq!['m', 'o', 'v', 'i', 'e']
            &&& row.tmdb_id == Some(m.id)
            &&& option_view(row.original_title) == Some(m.original_title@)
            &&& option_view(row.overview) == option_view(m.overview)
            &&& year_of(option_view(m.release_date)) is Some ==> row.year == year_of(
                option_view(m.release_date),
            )
            &&& is_image(row.poster_url, m.poster_path)
            &&& is_image(row.backdrop_url, m.backdrop_path)
        },
        tmdb matches Some(TmdbResult::Tv(t)) ==> {
            &&& row.resource_type@ == seq!['t', 'v']
            &&& row.tmdb_id == Some(t.id)
            &&& option_view(row.original_title) == Some(t.original_name@)
            &&& option_view(row.overview) == option_view(t.overview)
            &&& year_of(option_view(t.first_air_date)) is Some ==> row.year == year_of(
                option_view(t.first_air_date),
            )
            &&& is_image(row.poster_url, t.poster_path)
            &&& is_image(row.backdrop_url, t.backdrop_path)
        },
        tmdb is None ==> {
            &&& row.resource_type@ == if has_episodes {
                seq!['t', 'v']
            } else {
                seq!['o', 't', 'h', 'e', 'r']
            }
            &&& row.year == match name {
                Some(n) => n.year,
                None => None,
            }
            &&& row.tmdb_id is None && row.original_title is None && row.overview is None
            &&& row.poster_url is None && row.backdrop_url is None
        },
        name matches Some(n) ==> (tmdb matches Some(t) ==> year_of(t.date()) is None) ==> row.year
            == n.year,
{
    reveal_strlit("movie");
    reveal_strlit("tv");
    reveal_strlit("other");
    assert("movie"@ =~= seq!['m', 'o', 'v', 'i', 'e']);
    assert("tv"@ =~= seq!['t', 'v']);
    assert("other"@ =~= seq!['o', 't', 'h', 'e', 'r']);
}

/// Files tell an episode exactly if the name of one of them does.
pub proof fn one_file_tells_an_episode(a: Seq<FileEntryView>, b: Seq<FileEntryView>)
    ensures
        tells_episode(a + b) <==> tells_episode(a) || tells_episode(b),
        a.len() == 0 ==> !tells_episode(a),
        a.len() == 1 ==> (tells_episode(a) <==> parsed(a[0].name).episode is Some),
{
    if tells_episode(a) {
        let i = choose|i: int| 0 <= i < a.len() && parsed((#[trigger] a[i]).name).episode is Some;
        assert((a + b)[i] == a[i]);
    }
    if tells_episode(b) {
        let i = choose|i: int| 0 <= i < b.len() && parsed((#[trigger] b[i]).name).episode is Some;
        assert((a + b)[a.len() + i] == b[i]);
    }
    if tells_episode(a + b) {
        let i = choose|i: int|
            0 <= i < (a + b).len() && parsed((#[trigger] (a + b)[i]).name).episode is Some;
        if i < a.len() {
            assert(a[i] == (a + b)[i]);
        } else {
            assert(b[i - a.len()] == (a + b)[i]);
        }
    }
    if a.len() == 1 && parsed(a[0].name).episode is Some {
        assert(tells_episode(a));
    }
}

/// What may be deleted of the working folders: neither the root of the drive nor that of the
/// library, nor anything that is not called as the folder of a task is, nor where one of the two is
/// not known; every other folder of a task may be.
pub proof fn only_folders_of_tasks_may_go(root: Seq<char>, folder: Seq<char>, task_id: i64)
    ensures
        !may_clean(root, root, temp_folder_name(task_id)),
        !may_clean(root, seq!['0'], temp_folder_name(task_id)),
        !may_clean(seq!['0'], folder, temp_folder_name(task_id)),
        is_blank(root) || is_blank(folder) ==> !may_clean(root, folder, temp_folder_name(task_id)),
        !is_blank(root) && !is_blank(folder) && root != seq!['0'] && folder != seq!['0'] && folder
            != root ==> may_clean(root, folder, temp_folder_name(task_id)),
        forall|name: Seq<char>|
            #[trigger] may_clean(root, folder, name) ==> begins_with(name, "hidden-task-"@),
{
    reveal_strlit("0");
    assert("0"@ =~= seq!['0']);
    blank_texts_vanish(root);
    blank_texts_vanish(folder);
    tasks_have_folders_of_their_own(task_id, task_id);
}

/// A folder is listed if an entry has its identifier and its name and is a folder, and else not.
pub proof fn folders_are_listed_as_they_are(
    a: Seq<FileEntryView>,
    entry: FileEntryView,
    folder: Seq<char>,
    name: Seq<char>,
)
    ensures
        !is_listed(Seq::empty(), folder, name),
        is_listed(a.push(entry), folder, name) <==> is_listed(a, folder, name) || entry.is_dir
            && entry.name == name && entry.file_id == Some(folder),
{
    let all = a.push(entry);
    if is_listed(a, folder, name) {
        let i = choose|i: int|
            0 <= i < a.len() && (#[trigger] a[i]).is_dir && a[i].name == name && a[i].file_id
                == Some(folder);
        assert(all[i] == a[i]);
    }
    if entry.is_dir && entry.name == name && entry.file_id == Some(folder) {
        assert(all[a.len() as int] == entry);
    }
    if is_listed(all, folder, name) {
        let i = choose|i: int|
            0 <= i < all.len() && (#[trigger] all[i]).is_dir && all[i].name == name
                && all[i].file_id == Some(folder);
        if i < a.len() {
            assert(a[i] == all[i]);
        }
    }
}

} // verus!
