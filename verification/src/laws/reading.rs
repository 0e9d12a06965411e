//! Laws of reading folders and shares of the drive.

use vstd::prelude::*;

#[allow(unused_imports)]
use crate::adapters::adapter_115::{
    accepted, entries_view, entry_of, path_in, placed, Adapter115, FileEntryView, ShareInfo,
};
#[allow(unused_imports)]
use crate::adapters::folder_listing::{listed_on, FolderListing, FolderPage};
#[allow(unused_imports)]
use crate::adapters::share_listing::{
    continued, files_among, is_sound, read_with, size_sum, sizes_fit, Page, ShareListing,
    ShareListingView,
};
#[allow(unused_imports)]
use crate::call::{Call, Method};
#[allow(unused_imports)]
use crate::json::{field, items_of, nat_of, Json};
#[allow(unused_imports)]
use crate::text::number::decimal;
#[allow(unused_imports)]
use crate::workers::walk::{files_from, files_of, reversed, settled, Tree, WalkView};

verus! {

/// A page of a folder is asked for from where the entries end that were read, with 1150 entries.
pub proof fn folder_pages_are_asked_for_in_turn(listing: &FolderListing, r: Call)
    requires
        call_ensures(FolderListing::request, (listing,), r),
    ensures
        r@.method == Method::Get,
        r@.url == "https://webapi.115.com/files"@,
        r@.pairs.contains(("cid"@, listing.cid@)),
        r@.pairs.contains(("offset"@, decimal(listing.files@.len()))),
        r@.pairs.contains(("limit"@, seq!['1', '1', '5', '0'])),
        r@.pairs.contains(("show_dir"@, seq!['1'])),
{
    reveal_strlit("https://webapi.115.com");
    reveal_strlit("/files");
    reveal_strlit("https://webapi.115.com/files");
    reveal_strlit("1150");
    reveal_strlit("1");
    assert("https://webapi.115.com"@ + "/files"@ =~= "https://webapi.115.com/files"@);
    assert("1150"@ =~= seq!['1', '1', '5', '0']);
    assert("1"@ =~= seq!['1']);
    assert(r@.pairs[0] == ("cid"@, listing.cid@));
    assert(r@.pairs[1] == ("show_dir"@, "1"@));
    assert(r@.pairs[2] == ("limit"@, "1150"@));
    assert(r@.pairs[3] == ("offset"@, decimal(listing.files@.len())));
}

/// A page's entries are put behind those that were read, and each is told to stand in the folder.
/// The next page is asked for exactly if this one was full.
pub proof fn folder_pages_are_put_together(listing: FolderListing, resp: &Json, r: FolderPage)
    requires
        call_ensures(FolderListing::page, (listing, resp), r),
    ensures
        ({
            let items = items_of(field(*resp, "data"@));
            let all = match r {
                FolderPage::More(next) => entries_view(next.files@),
                FolderPage::Complete(files) => entries_view(files@),
            };
            &&& r is More <==> items.len() >= 1150
            &&& r matches FolderPage::More(next) ==> next.cid == listing.cid
            &&& all.len() == listing.files@.len() + items.len()
            &&& forall|i: int| 0 <= i < listing.files@.len() ==> #[trigger] all[i] == listing.files@[i]@
            &&& forall|i: int|
                #![trigger items[i]]
                0 <= i < items.len() ==> all[listing.files@.len() + i] == (FileEntryView {
                    folder_id: listing.cid@,
                    ..entry_of(items[i])
                })
        }),
{
    let items = items_of(field(*resp, "data"@));
    assert(listed_on(listing.cid@, *resp).len() == items.len());
}

/// A page of a share is asked for with the codes of the share, the folder that is being read, 1000
/// entries, and from where the entries of this folder end that were read.
pub proof fn share_pages_are_asked_for_in_turn(listing: &ShareListing, r: Call)
    requires
        is_sound(listing@),
        call_ensures(ShareListing::request, (listing,), r),
    ensures
        r@.method == Method::Get,
        r@.url == "https://webapi.115.com/share/snap"@,
        r@.pairs == seq![
            ("share_code"@, listing.share_code@),
            ("receive_code"@, listing.receive_code@),
            ("cid"@, listing.cid@),
            ("limit"@, decimal(1000)),
            ("offset"@, decimal((listing.tree@.len() - listing.start) as nat)),
        ],
{
    reveal_strlit("https://webapi.115.com");
    reveal_strlit("/share/snap");
    reveal_strlit("https://webapi.115.com/share/snap");
    assert("https://webapi.115.com"@ + "/share/snap"@ =~= "https://webapi.115.com/share/snap"@);
}

/// A page's entries are put behind those that were read, with the path of the folder in front of
/// their names.
pub proof fn share_pages_are_put_together(listing: ShareListingView, resp: Json)
    ensures
        ({
            let items = items_of(field(field(resp, "data"@), "list"@));
            let all = read_with(listing, resp);
            &&& all.len() == listing.tree.len() + items.len()
            &&& forall|i: int| 0 <= i < listing.tree.len() ==> #[trigger] all[i] == listing.tree[i]
            &&& forall|i: int|
                #![trigger items[i]]
                0 <= i < items.len() ==> all[listing.tree.len() + i] == (FileEntryView {
                    path: path_in(listing.path, entry_of(items[i]).name),
                    ..entry_of(items[i])
                })
        }),
{
}

/// A folder of a share is read up to its end: until a page is empty, or as many entries were read as
/// the drive counts in it. Then the next folder is read among all entries, from its beginning and
/// with its path; where there is none left, the share is read.
pub proof fn shares_are_read_folder_by_folder(listing: ShareListingView, resp: Json, k: int)
    requires
        is_sound(listing),
        listing.next <= k <= read_with(listing, resp).len(),
        forall|j: int|
            listing.next <= j < k ==> !((#[trigger] read_with(listing, resp)[j]).is_dir && read_with(
                listing,
                resp,
            )[j].file_id is Some),
        k < read_with(listing, resp).len() ==> read_with(listing, resp)[k].is_dir && read_with(
            listing,
            resp,
        )[k].file_id is Some,
    ensures
        ({
            let items = items_of(field(field(resp, "data"@), "list"@));
            let all = read_with(listing, resp);
            let count = match nat_of(field(field(resp, "data"@), "count"@)) {
                Some(n) => n as int,
                None => 0,
            };
            let read = items.len() == 0 || all.len() - listing.start >= count;
            let next = continued(listing, resp);
            &&& next is None <==> read && k == all.len()
            &&& next matches Some(n) ==> {
                &&& n.share_code == listing.share_code
                &&& n.receive_code == listing.receive_code
                &&& n.tree == all
                &&& !read ==> n.cid == listing.cid && n.path == listing.path && n.start
                    == listing.start && n.next == listing.next && n.top == listing.top
                &&& read ==> all[k].file_id == Some(n.cid) && n.path == all[k].path && n.start
                    == all.len() && n.next == k + 1
                &&& read && listing.top is None ==> n.top == Some(all.len() as int)
                &&& read && listing.top is Some ==> n.top == listing.top
            }
        }),
{
    lemma_folder_from(read_with(listing, resp), listing.next, k);
}

/// The next folder to read is the first one that can be read.
proof fn lemma_folder_from(entries: Seq<FileEntryView>, i: int, k: int)
    requires
        0 <= i <= k <= entries.len(),
        forall|j: int|
            i <= j < k ==> !((#[trigger] entries[j]).is_dir && entries[j].file_id is Some),
        k < entries.len() ==> entries[k].is_dir && entries[k].file_id is Some,
    ensures
        crate::adapters::share_listing::folder_from(entries, i) == k,
    decreases k - i,
{
    if i < k {
        lemma_folder_from(entries, i + 1, k);
    }
}

/// What is told of a share that was read: its code, all its entries, those that stand in the share
/// itself, how many of all are files, and how large these are together. A page that the drive does
/// not accept ends the reading with a failure.
pub proof fn read_shares_are_told(listing: ShareListing, resp: &Json, r: Result<Page, String>)
    requires
        is_sound(listing@),
        sizes_fit(read_with(listing@, *resp)),
        call_ensures(ShareListing::page, (listing, resp), r),
    ensures
        r is Err <==> !accepted(*resp),
        r matches Ok(Page::More(next)) ==> continued(listing@, *resp) == Some(next@),
        r matches Ok(Page::Complete(info)) ==> {
            let all = read_with(listing@, *resp);
            &&& continued(listing@, *resp) is None
            &&& info.share_id@ == listing.share_code@
            &&& entries_view(info.tree@) == all
            &&& info.total_size == size_sum(all)
            &&& info.file_count == files_among(all)
            &&& listing.top matches Some(n) ==> entries_view(info.top@) == all.take(n as int)
            &&& listing.top is None ==> entries_view(info.top@) == all
        },
{
    assert(read_with(listing@, *resp).take(read_with(listing@, *resp).len() as int)
        =~= read_with(listing@, *resp));
}

/// Sizes and files are counted one by one; folders count for nothing.
pub proof fn files_are_counted_one_by_one(a: Seq<FileEntryView>, b: Seq<FileEntryView>)
    ensures
        size_sum(a + b) == size_sum(a) + size_sum(b),
        files_among(a + b) == files_among(a) + files_among(b),
        b.len() == 1 && !b[0].is_dir ==> size_sum(b) == b[0].size && files_among(b) == 1,
        b.len() == 1 && b[0].is_dir ==> size_sum(b) == 0 && files_among(b) == 0,
    decreases b.len(),
{
    if b.len() == 0 {
        assert(a + b =~= a);
    } else {
        files_are_counted_one_by_one(a, b.drop_last());
        assert((a + b).drop_last() =~= a + b.drop_last());
        assert((a + b).last() == b.last());
        if b.len() == 1 {
            assert(b.drop_last().len() == 0);
            assert(size_sum(b.drop_last()) == 0 && files_among(b.drop_last()) == 0);
        }
    }
}

/// The files of a tree: a file is one, in the folder that it stands in; those of a folder are those
/// of what stands in it, with its name in their paths; a folder without an identifier cannot be
/// read.
pub proof fn trees_hold_the_files_of_their_folders(tree: Tree, parent: Seq<char>)
    ensures
        !tree.entry.is_dir ==> {
            &&& files_of(tree, parent).len() == 1
            &&& files_of(tree, parent)[0].name == tree.entry.name
            &&& files_of(tree, parent)[0].file_id == tree.entry.file_id
            &&& files_of(tree, parent)[0].size == tree.entry.size
            &&& files_of(tree, parent)[0].path == if parent.len() == 0 {
                tree.entry.name
            } else {
                parent + seq!['/'] + tree.entry.name
            }
        },
        tree.entry.is_dir && tree.entry.file_id is None ==> files_of(tree, parent).len() == 0,
        tree.entry.is_dir && tree.entry.file_id is Some ==> files_of(tree, parent) == files_from(
            tree.children,
            if parent.len() == 0 {
                tree.entry.name
            } else {
                parent + seq!['/'] + tree.entry.name
            },
            0,
        ),
{
    reveal_strlit("/");
    assert("/"@ =~= seq!['/']);
}

/// The files of a row of trees are those of the first one and then those of the others.
pub proof fn files_come_tree_by_tree(trees: Seq<Tree>, parent: Seq<char>, i: nat)
    ensures
        i < trees.len() ==> files_from(trees, parent, i) == files_of(trees[i as int], parent)
            + files_from(trees, parent, i + 1),
        i >= trees.len() ==> files_from(trees, parent, i).len() == 0,
{
}

/// One step of a walk: a file on top of the stack is put behind those that were found; a folder is
/// what is to be listed next; one without an identifier is passed over.
pub proof fn walks_go_from_the_top(walk: WalkView, entry: FileEntryView, parent: Seq<char>)
    ensures
        ({
            let top = WalkView { stack: walk.stack.push((entry, parent)), out: walk.out };
            &&& !entry.is_dir ==> settled(top) == settled(
                WalkView { stack: walk.stack, out: walk.out.push(placed(entry, parent)) },
            )
            &&& entry.is_dir && entry.file_id is None ==> settled(top) == settled(walk)
            &&& entry.is_dir ==> (entry.file_id matches Some(id) ==> settled(top) == (
                walk,
                Some((id, path_in(parent, entry.name))),
            ))
        }),
        walk.stack.len() == 0 ==> settled(walk) == (walk, None::<(Seq<char>, Seq<char>)>),
{
    let top = WalkView { stack: walk.stack.push((entry, parent)), out: walk.out };
    assert(top.stack.drop_last() =~= walk.stack);
    assert(top.stack.last() == (entry, parent));
    assert(WalkView { stack: walk.stack, out: walk.out } == walk);
}

/// A folder, and a share, are read from their beginning: nothing was read yet.
pub proof fn reading_begins_at_the_beginning(
    adapter: &Adapter115,
    cid: &str,
    share: &str,
    code: Option<&str>,
    folder: FolderListing,
    listing: ShareListing,
)
    requires
        call_ensures(Adapter115::list_files, (adapter, cid), folder),
        call_ensures(Adapter115::parse_share, (adapter, share, code), listing),
    ensures
        folder.cid@ == cid@,
        folder.files@.len() == 0,
        listing.share_code@ == share@,
        code matches Some(c) ==> listing.receive_code@ == c@,
        code is None ==> listing.receive_code@.len() == 0,
        listing.cid@ == seq!['0'],
        listing.path@.len() == 0,
        listing.tree@.len() == 0,
        listing.start == 0 && listing.next == 0 && listing.top is None,
        is_sound(listing@),
{
    reveal_strlit("0");
    assert("0"@ =~= seq!['0']);
    assert(listing@.tree.len() == listing.tree@.len());
    assert(listing@.start == listing.start as int);
    assert(listing@.next == listing.next as int);
}

/// A walk begins with what it is given, the first entry on top of the stack, and puts what a folder
/// holds on top in the same way.
pub proof fn walks_begin_with_the_first_entry(
    entries: Seq<FileEntryView>,
    parent: Seq<char>,
    i: int,
)
    requires
        0 <= i < entries.len(),
    ensures
        reversed(entries, parent).len() == entries.len(),
        reversed(entries, parent)[i] == (entries[entries.len() - 1 - i], parent),
        reversed(entries, parent).last() == (entries[0], parent),
{
}

/// A share lives exactly if it could be read.
pub proof fn shares_that_can_be_read_live(outcome: &Result<ShareInfo, String>, r: bool)
    requires
        call_ensures(Adapter115::verify_share, (outcome,), r),
    ensures
        r <==> outcome is Ok,
{
}

} // verus!
