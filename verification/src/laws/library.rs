//! Laws of the library of media files: what files and folders are called, and which files are kept.

use vstd::prelude::*;

#[allow(unused_imports)]
use crate::adapters::adapter_115::FileEntryView;
#[allow(unused_imports)]
use crate::config::Config;
#[allow(unused_imports)]
use crate::laws::names::{
    ads_hold_one_of_eleven_keywords, ad_keywords, junk_extensions, junk_has_three_extensions,
    video_extensions, videos_have_twelve_extensions,
};
#[allow(unused_imports)]
use crate::laws::titles::{
    is_forbidden, is_titled, lemma_forbidden, the_best_title_is_used,
};
#[allow(unused_imports)]
use crate::services::organizer::{
    all_steps, category_of, database_year, destination, episode_suffix, film_suffix, final_name_of,
    is_folder, is_unwanted, min_video_bytes, outcome_of, quality_suffix, resource_folder_of,
    standard_name, step_for, year_suffix, KeptFileView, OrganizeStepView,
};
#[allow(unused_imports)]
use crate::services::title::{
    file_names_are_legal, has_cjk, is_illegal, preferred, sanitized,
};
#[allow(unused_imports)]
use crate::services::tmdb::{year_of, TmdbMovie, TmdbResult, TmdbTv};
#[allow(unused_imports)]
use crate::text::number::{decimal, decimal_int, decimal_is_read_back, is_digit, two_digits};
#[allow(unused_imports)]
use crate::text::path::extension_of;
#[allow(unused_imports)]
use crate::text::{has_text, lower_of, option_view, trimmed};
#[allow(unused_imports)]
use crate::utils::{is_video, parsed, ParsedFileNameView};

verus! {

/// The parts of a standard name, in their order.
#[verifier::ext_equal]
pub struct NameParts {
    pub title: Seq<char>,
    pub year: Seq<char>,
    pub episode: Seq<char>,
    pub quality: Seq<char>,
    pub number: Seq<char>,
}

/// Whether no character of a text is one that file names may not hold.
pub open spec fn is_allowed(s: Seq<char>) -> bool {
    forall|i: int| 0 <= i < s.len() ==> !is_forbidden(#[trigger] s[i])
}

/// What is told of a year: nothing of one that is not known.
pub open spec fn tells_year(s: Seq<char>, year: Option<i32>) -> bool {
    match year {
        Some(y) => s == seq![' ', '('] + decimal_int(y as int) + seq![')'],
        None => s.len() == 0,
    }
}

/// Numbers hold digits and a sign alone.
proof fn lemma_number(n: int)
    ensures
        is_allowed(decimal_int(n)),
        is_allowed(two_digits(n)),
{
    let m: nat = if n < 0 {
        (-n) as nat
    } else {
        n as nat
    };
    decimal_is_read_back(m);
    assert forall|i: int| 0 <= i < decimal_int(n).len() implies !is_forbidden(
        #[trigger] decimal_int(n)[i],
    ) by {
        lemma_forbidden(decimal_int(n)[i]);
        if n < 0 && i > 0 {
            assert(decimal_int(n)[i] == decimal(m)[i - 1]);
            assert(is_digit(decimal(m)[i - 1]));
        } else if n >= 0 {
            assert(is_digit(decimal(m)[i]));
        }
    }
    assert forall|i: int| 0 <= i < two_digits(n).len() implies !is_forbidden(
        #[trigger] two_digits(n)[i],
    ) by {
        lemma_forbidden(two_digits(n)[i]);
        if 0 <= n < 10 {
            if i > 0 {
                assert(two_digits(n)[i] == decimal(m)[i - 1]);
                assert(is_digit(decimal(m)[i - 1]));
            }
        } else {
            assert(!is_forbidden(decimal_int(n)[i]));
        }
    }
}

/// Texts that may stand in file names may stand there one behind the other.
proof fn lemma_allowed(a: Seq<char>, b: Seq<char>)
    requires
        is_allowed(a),
        is_allowed(b),
    ensures
        is_allowed(a + b),
{
    assert forall|i: int| 0 <= i < (a + b).len() implies !is_forbidden(#[trigger] (a + b)[i]) by {
        if i < a.len() {
            assert((a + b)[i] == a[i]);
        } else {
            assert((a + b)[i] == b[i - a.len()]);
        }
    }
}

/// What is told of the year may stand in a file name.
proof fn lemma_year(year: Option<i32>)
    ensures
        tells_year(year_suffix(year), year),
        is_allowed(year_suffix(year)),
{
    reveal_strlit(" (");
    reveal_strlit(")");
    if let Some(y) = year {
        lemma_number(y as int);
        assert(" ("@ =~= seq![' ', '(']);
        assert(")"@ =~= seq![')']);
        lemma_forbidden(' ');
        lemma_forbidden('(');
        lemma_forbidden(')');
        lemma_allowed(" ("@, decimal_int(y as int));
        lemma_allowed(" ("@ + decimal_int(y as int), ")"@);
    }
}

/// What is told of the episode may stand in a file name.
proof fn lemma_episode(season: Option<i32>, episode: Option<i32>)
    ensures
        is_allowed(episode_suffix(season, episode)),
        episode is None ==> episode_suffix(season, episode).len() == 0,
        episode matches Some(e) ==> season matches Some(s) ==> episode_suffix(season, episode)
            == seq![' ', '-', ' ', 'S'] + two_digits(s as int) + seq!['E'] + two_digits(e as int),
        episode matches Some(e) ==> season is None ==> episode_suffix(season, episode) == seq![
            ' ',
            '-',
            ' ',
            'E',
        ] + two_digits(e as int),
{
    reveal_strlit(" - S");
    reveal_strlit("E");
    reveal_strlit(" - E");
    lemma_forbidden(' ');
    lemma_forbidden('-');
    lemma_forbidden('S');
    lemma_forbidden('E');
    if let Some(e) = episode {
        lemma_number(e as int);
        match season {
            Some(s) => {
                lemma_number(s as int);
                assert(" - S"@ =~= seq![' ', '-', ' ', 'S']);
                assert("E"@ =~= seq!['E']);
                lemma_allowed(" - S"@, two_digits(s as int));
                lemma_allowed(" - S"@ + two_digits(s as int), "E"@);
                lemma_allowed(" - S"@ + two_digits(s as int) + "E"@, two_digits(e as int));
            },
            None => {
                assert(" - E"@ =~= seq![' ', '-', ' ', 'E']);
                lemma_allowed(" - E"@, two_digits(e as int));
            },
        }
    }
}

/// What a standard name is made of. There is one exactly if there is a title and an extension. In
/// front stands the title that is preferred, made legal, of a film as of a series; then the year,
/// that of the database rather than that of the file name; then the episode, with the season where
/// it is known; then the quality; then, of films alone, the number in the database; and at the end
/// the extension. No character in front of the quality is one that file names may not hold.
pub proof fn standard_names_are_made_of_parts(
    name: ParsedFileNameView,
    tmdb: Option<TmdbResult>,
) -> (p: NameParts)
    ensures
        standard_name(name, tmdb) is Some <==> name.ext.len() > 0 && (is_titled(Some(name.title))
            || (tmdb matches Some(t) && is_titled(Some(t.title_text())))),
        standard_name(name, tmdb) matches Some(n) ==> {
            &&& n == p.title + p.year + p.episode + p.quality + p.number + seq!['.'] + name.ext
            &&& is_allowed(p.title + p.year + p.episode)
            &&& sanitized(p.title) == p.title
            &&& preferred(
                match tmdb {
                    Some(TmdbResult::Movie(m)) => Some(m.title@),
                    Some(TmdbResult::Tv(t)) => Some(t.name@),
                    None => None,
                },
                Some(name.title),
            ) matches Some(title) && p.title == sanitized(title)
            &&& tells_year(
                p.year,
                match tmdb {
                    Some(TmdbResult::Movie(m)) => if year_of(option_view(m.release_date)) is Some {
                        year_of(option_view(m.release_date))
                    } else {
                        name.year
                    },
                    Some(TmdbResult::Tv(t)) => if year_of(option_view(t.first_air_date)) is Some {
                        year_of(option_view(t.first_air_date))
                    } else {
                        name.year
                    },
                    None => name.year,
                },
            )
            &&& name.episode is None ==> p.episode.len() == 0
            &&& name.episode matches Some(e) ==> name.season matches Some(s) ==> p.episode == seq![
                ' ',
                '-',
                ' ',
                'S',
            ] + two_digits(s as int) + seq!['E'] + two_digits(e as int)
            &&& name.episode matches Some(e) ==> name.season is None ==> p.episode == seq![
                ' ',
                '-',
                ' ',
                'E',
            ] + two_digits(e as int)
            &&& name.quality is None ==> p.quality.len() == 0
            &&& name.quality matches Some(q) ==> p.quality == seq![' ', '-', ' '] + q
            &&& tmdb matches Some(TmdbResult::Movie(m)) ==> p.number == " - {tmdb_id="@
                + decimal_int(m.id as int) + "}"@
            &&& !(tmdb matches Some(TmdbResult::Movie(m))) ==> p.number.len() == 0
        },
{
    let known = match tmdb {
        Some(TmdbResult::Movie(m)) => Some(m.title@),
        Some(TmdbResult::Tv(t)) => Some(t.name@),
        None => None,
    };
    the_best_title_is_used(known, Some(name.title));
    let title = match preferred(known, Some(name.title)) {
        Some(t) => sanitized(t),
        None => Seq::empty(),
    };
    let told = if database_year(tmdb) is Some {
        database_year(tmdb)
    } else {
        name.year
    };
    let p = NameParts {
        title,
        year: year_suffix(told),
        episode: episode_suffix(name.season, name.episode),
        quality: quality_suffix(name.quality),
        number: film_suffix(tmdb),
    };
    lemma_year(told);
    lemma_episode(name.season, name.episode);
    if let Some(t) = preferred(known, Some(name.title)) {
        file_names_are_legal(t);
        assert forall|i: int| 0 <= i < title.len() implies !is_forbidden(#[trigger] title[i]) by {
            lemma_forbidden(title[i]);
            assert(!is_illegal(sanitized(t)[i]));
        }
        lemma_allowed(p.title, p.year);
        lemma_allowed(p.title + p.year, p.episode);
    }
    reveal_strlit(" - ");
    reveal_strlit(".");
    assert(" - "@ =~= seq![' ', '-', ' ']);
    assert("."@ =~= seq!['.']);
    p
}

/// A film and a series with the same title and date give a file the same name, but for the number
/// of the film.
pub proof fn films_and_series_are_named_alike(name: ParsedFileNameView, m: TmdbMovie, t: TmdbTv)
    requires
        m.title@ == t.name@,
        option_view(m.release_date) == option_view(t.first_air_date),
    ensures
        match (
            standard_name(name, Some(TmdbResult::Movie(m))),
            standard_name(name, Some(TmdbResult::Tv(t))),
        ) {
            (Some(a), Some(b)) => exists|front: Seq<char>|
                #![trigger front + seq!['.']]
                b == front + seq!['.'] + name.ext && a == front + (" - {tmdb_id="@ + decimal_int(
                    m.id as int,
                ) + "}"@) + seq!['.'] + name.ext,
            (None, None) => true,
            _ => false,
        },
{
    let a = standard_names_are_made_of_parts(name, Some(TmdbResult::Movie(m)));
    let b = standard_names_are_made_of_parts(name, Some(TmdbResult::Tv(t)));
    let front = b.title + b.year + b.episode + b.quality;
    if standard_name(name, Some(TmdbResult::Tv(t))) is Some {
        assert(b.title =~= a.title);
        assert(front + b.number =~= front);
        assert(b.title + b.year + b.episode + b.quality + b.number + seq!['.'] + name.ext =~= front
            + seq!['.'] + name.ext);
        if a.year != b.year || a.episode != b.episode || a.quality != b.quality {
            assert(a.year =~= b.year);
            assert(a.episode =~= b.episode);
            assert(a.quality =~= b.quality);
        }
        assert(a.title + a.year + a.episode + a.quality == front);
    }
}

/// The folder of a film or a series. It begins with the title that is preferred of that of the
/// database and the local one, made legal; then the year follows where the database tells it, and
/// then, of series alone, the number in the database. Where the local title is Chinese and that of
/// the database is not, the folder begins with the local one.
pub proof fn folders_begin_with_the_title(tmdb: TmdbResult, local: Option<Seq<char>>) -> (p: (
    Seq<char>,
    Seq<char>,
    Seq<char>,
))
    ensures
        ({
            let (title, year, number) = p;
            let known = match tmdb {
                TmdbResult::Movie(m) => m.title@,
                TmdbResult::Tv(t) => t.name@,
            };
            &&& resource_folder_of(tmdb, local) == title + year + number
            &&& is_allowed(resource_folder_of(tmdb, local))
            &&& sanitized(title) == title
            &&& match preferred(Some(known), local) {
                Some(t) => title == sanitized(t),
                None => title.len() == 0,
            }
            &&& is_titled(local) && has_cjk(trimmed(local->0)) && !has_cjk(trimmed(known)) ==> title
                == sanitized(trimmed(local->0))
            &&& is_titled(Some(known)) && (has_cjk(trimmed(known)) || !is_titled(local) || !has_cjk(
                trimmed(local->0),
            )) ==> title == sanitized(trimmed(known))
            &&& tells_year(
                year,
                match tmdb {
                    TmdbResult::Movie(m) => year_of(option_view(m.release_date)),
                    TmdbResult::Tv(t) => year_of(option_view(t.first_air_date)),
                },
            )
            &&& tmdb matches TmdbResult::Tv(t) ==> number == " {tmdb_id="@ + decimal_int(
                t.id as int,
            ) + "}"@
            &&& tmdb is Movie ==> number.len() == 0
        }),
{
    let known = match tmdb {
        TmdbResult::Movie(m) => m.title@,
        TmdbResult::Tv(t) => t.name@,
    };
    the_best_title_is_used(Some(known), local);
    let chosen = match preferred(Some(known), local) {
        Some(t) => t,
        None => Seq::empty(),
    };
    let title = sanitized(chosen);
    file_names_are_legal(chosen);
    assert(Seq::<char>::empty().map_values(|c: char| crate::services::title::legal(c))
        =~= Seq::<char>::empty());
    let year = year_suffix(year_of(tmdb.date()));
    let number = match tmdb {
        TmdbResult::Tv(t) => " {tmdb_id="@ + decimal_int(t.id as int) + "}"@,
        TmdbResult::Movie(_) => Seq::empty(),
    };
    lemma_year(year_of(tmdb.date()));
    assert(is_allowed(title)) by {
        assert forall|i: int| 0 <= i < title.len() implies !is_forbidden(#[trigger] title[i]) by {
            lemma_forbidden(title[i]);
            assert(!is_illegal(sanitized(chosen)[i]));
        }
    }
    assert(is_allowed(number)) by {
        if let TmdbResult::Tv(t) = tmdb {
            reveal_strlit(" {tmdb_id=");
            reveal_strlit("}");
            lemma_number(t.id as int);
            assert forall|i: int| 0 <= i < " {tmdb_id="@.len() implies !is_forbidden(
                #[trigger] " {tmdb_id="@[i],
            ) by {
                lemma_forbidden(" {tmdb_id="@[i]);
            }
            assert forall|i: int| 0 <= i < "}"@.len() implies !is_forbidden(#[trigger] "}"@[i]) by {
                lemma_forbidden("}"@[i]);
            }
            lemma_allowed(" {tmdb_id="@, decimal_int(t.id as int));
            lemma_allowed(" {tmdb_id="@ + decimal_int(t.id as int), "}"@);
        }
    }
    lemma_allowed(title, year);
    lemma_allowed(title + year, number);
    assert(resource_folder_of(tmdb, local) =~= title + year + number);
    (title, year, number)
}

/// A film and a series with the same title and date have the same folder, but for the number of the
/// series; and they are in different folders of the library.
pub proof fn films_and_series_have_folders_alike(m: TmdbMovie, t: TmdbTv, local: Option<Seq<char>>)
    requires
        m.title@ == t.name@,
        option_view(m.release_date) == option_view(t.first_air_date),
    ensures
        resource_folder_of(TmdbResult::Tv(t), local) == resource_folder_of(
            TmdbResult::Movie(m),
            local,
        ) + (" {tmdb_id="@ + decimal_int(t.id as int) + "}"@),
        category_of(TmdbResult::Movie(m)) == seq!['M', 'o', 'v', 'i', 'e', 's'],
        category_of(TmdbResult::Tv(t)) == seq!['T', 'V'],
{
    let (a, b, c) = folders_begin_with_the_title(TmdbResult::Movie(m), local);
    let (d, e, f) = folders_begin_with_the_title(TmdbResult::Tv(t), local);
    assert(a =~= d);
    assert(b =~= e);
    assert(a + b + c =~= a + b);
    reveal_strlit("Movies");
    reveal_strlit("TV");
}

/// A file is unwanted exactly if its name holds a keyword of advertising, or has an extension of
/// junk, or if it is a video smaller than the configuration asks for, in megabytes of 1048576 bytes.
/// A size of zero is one that is not known.
pub proof fn unwanted_files_are_of_three_kinds(file: FileEntryView, config: Config)
    ensures
        is_unwanted(file, min_video_bytes(config)) <==> {
            ||| exists|k: int|
                0 <= k < ad_keywords().len() && has_text(
                    lower_of(file.name),
                    #[trigger] ad_keywords()[k],
                )
            ||| junk_extensions().contains(lower_of(extension_of(file.name)))
            ||| video_extensions().contains(lower_of(extension_of(file.name))) && file.size > 0
                && file.size < config.clean_min_video_size_mb * 1048576
        },
{
    ads_hold_one_of_eleven_keywords(lower_of(file.name));
    junk_has_three_extensions(lower_of(extension_of(file.name)));
    videos_have_twelve_extensions(lower_of(extension_of(file.name)));
}

/// A video gets its standard name where it has one; every other file keeps its name.
pub proof fn videos_get_their_standard_names(name: Seq<char>, tmdb: Option<TmdbResult>)
    ensures
        !is_video(name) ==> final_name_of(name, tmdb) == name,
        standard_name(parsed(name), tmdb) is None ==> final_name_of(name, tmdb) == name,
        standard_name(parsed(name), tmdb) matches Some(n) ==> is_video(name) ==> final_name_of(
            name,
            tmdb,
        ) == n,
{
}

/// What is done with one file. Folders, and files without an identifier, are left alone. An unwanted
/// file is deleted. Any other is kept: it is renamed exactly if its final name is not the one that
/// it has, and it belongs to the target folder, which is the root where none is named.
pub proof fn each_file_gets_one_step(
    file: FileEntryView,
    tmdb: Option<TmdbResult>,
    min_bytes: int,
    target: Seq<char>,
)
    ensures
        step_for(file, tmdb, min_bytes, target) is None <==> file.is_dir || file.file_id is None,
        !file.is_dir && file.file_id is Some ==> {
            let step = step_for(file, tmdb, min_bytes, target)->0;
            &&& is_unwanted(file, min_bytes) <==> step is Delete
            &&& step matches OrganizeStepView::Delete { file_id } ==> file.file_id == Some(file_id)
            &&& step matches OrganizeStepView::Keep(kept) ==> {
                &&& file.file_id == Some(kept.file_id)
                &&& kept.name == file.name
                &&& kept.folder_id == file.folder_id
                &&& kept.new_name is None <==> final_name_of(file.name, tmdb) == file.name
                &&& kept.new_name matches Some(n) ==> n == final_name_of(file.name, tmdb)
                &&& target.len() == 0 || target == seq!['0'] ==> kept.target == seq!['0']
                &&& target.len() > 0 ==> kept.target == target
            }
        },
{
    reveal_strlit("0");
    assert("0"@ =~= seq!['0']);
}

/// The files are gone through one by one, in their order: the steps for two lists, one behind the
/// other, are those for the first one and then those for the second.
pub proof fn files_are_gone_through_in_order(
    a: Seq<FileEntryView>,
    b: Seq<FileEntryView>,
    tmdb: Option<TmdbResult>,
    min_bytes: int,
    target: Seq<char>,
)
    ensures
        all_steps(a + b, tmdb, min_bytes, target) == all_steps(a, tmdb, min_bytes, target)
            + all_steps(b, tmdb, min_bytes, target),
        b.len() == 1 ==> all_steps(b, tmdb, min_bytes, target) == match step_for(
            b[0],
            tmdb,
            min_bytes,
            target,
        ) {
            Some(step) => seq![step],
            None => Seq::empty(),
        },
    decreases b.len(),
{
    if b.len() == 0 {
        assert(a + b =~= a);
    } else {
        files_are_gone_through_in_order(a, b.drop_last(), tmdb, min_bytes, target);
        assert((a + b).drop_last() =~= a + b.drop_last());
        assert((a + b).last() == b.last());
        if b.len() == 1 {
            assert(b.drop_last() =~= Seq::<FileEntryView>::empty());
        }
    }
}

/// What became of a kept file: it has the new name exactly if there is one and it was renamed, and
/// it is in the target folder exactly if it was moved.
pub proof fn outcomes_tell_what_became_of_files(kept: KeptFileView, renamed: bool, moved: bool)
    ensures
        ({
            let r = outcome_of(kept, renamed, moved);
            &&& r.file_id == kept.file_id
            &&& r.moved == moved
            &&& moved ==> r.folder_id == kept.target
            &&& !moved ==> r.folder_id == kept.folder_id
            &&& kept.new_name matches Some(n) ==> renamed ==> r.final_name == n
            &&& !renamed || kept.new_name is None ==> r.final_name == kept.name
        }),
{
}

/// What names a folder: any text but the empty one and that of the root.
pub proof fn the_root_is_no_folder_of_its_own(id: Seq<char>)
    ensures
        is_folder(id) <==> id.len() > 0 && id != seq!['0'],
        is_folder(id) ==> destination(id) == id,
        !is_folder(id) ==> destination(id) == seq!['0'],
{
    reveal_strlit("0");
    assert("0"@ =~= seq!['0']);
}

} // verus!
