//! Reading what a share holds, folder by folder and page by page.

use vstd::prelude::*;

#[allow(unused_imports)]
use crate::adapters::adapter_115::{
    accepted, add_entries, asked, entries_of, entries_view, failure, is_accepted, numbered_failure,
    path_below, placed, Adapter115, FileEntry, FileEntryView, ShareInfo, SHARE_PAGE, WEBAPI,
};
#[allow(unused_imports)]
use crate::call::{Call, Method};
#[allow(unused_imports)]
use crate::json::{field, items_of, nat_of, Json};
#[allow(unused_imports)]
use crate::text::number::{decimal, decimal_u64};
#[allow(unused_imports)]
use crate::text::{cat, or_empty, str_view};

verus! {

/// A share that is being read. Its folders are read one after the other, in the order in which they
/// were found, and each of them page by page.
#[derive(Debug)]
pub struct ShareListing {
    pub share_code: String,
    pub receive_code: String,
    /// The folder that is being read, and its path. The share itself is the folder `0`.
    pub cid: String,
    pub path: String,
    /// All entries that were read, with their paths.
    pub tree: Vec<FileEntry>,
    /// Where the entries of the folder that is being read begin.
    pub start: usize,
    /// Where the entries begin that may still be folders to read.
    pub next: usize,
    /// How many entries stand in the share itself, once they were read.
    pub top: Option<usize>,
}

/// A share that is being read, over sequences of characters.
#[verifier::ext_equal]
pub struct ShareListingView {
    pub share_code: Seq<char>,
    pub receive_code: Seq<char>,
    pub cid: Seq<char>,
    pub path: Seq<char>,
    pub tree: Seq<FileEntryView>,
    pub start: int,
    pub next: int,
    pub top: Option<int>,
}

impl View for ShareListing {
    type V = ShareListingView;

    open spec fn view(&self) -> ShareListingView {
        ShareListingView {
            share_code: self.share_code@,
            receive_code: self.receive_code@,
            cid: self.cid@,
            path: self.path@,
            tree: entries_view(self.tree@),
            start: self.start as int,
            next: self.next as int,
            top: match self.top {
                Some(n) => Some(n as int),
                None => None,
            },
        }
    }
}

/// What a page of a share leads to.
#[derive(Debug)]
pub enum Page {
    /// There is more to read.
    More(ShareListing),
    /// All was read.
    Complete(ShareInfo),
}

// ---------------------------------------------------------------------------
// What is read
// ---------------------------------------------------------------------------

/// The sum of the sizes of the files among entries. What a folder holds is counted with its files.
pub open spec fn size_sum(entries: Seq<FileEntryView>) -> int
    decreases entries.len(),
{
    if entries.len() == 0 {
        0
    } else {
        size_sum(entries.drop_last()) + if entries.last().is_dir {
            0
        } else {
            entries.last().size as int
        }
    }
}

/// How many of the entries are files.
pub open spec fn files_among(entries: Seq<FileEntryView>) -> nat
    decreases entries.len(),
{
    if entries.len() == 0 {
        0
    } else {
        files_among(entries.drop_last()) + if entries.last().is_dir {
            0nat
        } else {
            1
        }
    }
}

/// Entries of a folder, with their paths.
pub open spec fn all_placed(entries: Seq<FileEntryView>, parent: Seq<char>) -> Seq<FileEntryView> {
    entries.map_values(|e: FileEntryView| placed(e, parent))
}

/// The items on a page.
pub open spec fn page_items(resp: Json) -> Seq<Json> {
    items_of(field(field(resp, "data"@), "list"@))
}

/// How many entries the folder holds, as a page says.
pub open spec fn page_count(resp: Json) -> u64 {
    match nat_of(field(field(resp, "data"@), "count"@)) {
        Some(n) => n,
        None => 0,
    }
}

/// All that was read, with a page.
pub open spec fn read_with(listing: ShareListingView, resp: Json) -> Seq<FileEntryView> {
    listing.tree + all_placed(entries_of(page_items(resp)), listing.path)
}

/// Whether the folder that is being read was read with a page: the page is empty, or as many entries
/// were read as the folder is said to hold.
pub open spec fn folder_is_read(listing: ShareListingView, resp: Json) -> bool {
    page_items(resp).len() == 0 || read_with(listing, resp).len() - listing.start >= page_count(resp)
}

/// Whether an entry is a folder that can be read.
pub open spec fn can_be_read(entry: FileEntryView) -> bool {
    entry.is_dir && entry.file_id is Some
}

/// The first position at or after `i` of a folder that can be read; the length if there is none.
pub open spec fn folder_from(entries: Seq<FileEntryView>, i: int) -> int
    decreases entries.len() - i,
{
    if i >= entries.len() || can_be_read(entries[i]) {
        i
    } else {
        folder_from(entries, i + 1)
    }
}

/// How many entries stand in the share itself, when a folder was read with `len` entries in all.
pub open spec fn top_after(listing: ShareListingView, len: int) -> int {
    match listing.top {
        Some(n) => n,
        None => len,
    }
}

/// How reading goes on after a page: with the next page of the folder, or with the next folder.
/// There is nothing to go on with when all folders were read.
pub open spec fn continued(listing: ShareListingView, resp: Json) -> Option<ShareListingView> {
    let all = read_with(listing, resp);
    let k = folder_from(all, listing.next);
    if !folder_is_read(listing, resp) {
        Some(ShareListingView { tree: all, ..listing })
    } else if k < all.len() {
        Some(
            ShareListingView {
                cid: all[k].file_id->0,
                path: all[k].path,
                tree: all,
                start: all.len() as int,
                next: k + 1,
                top: Some(top_after(listing, all.len() as int)),
                ..listing
            },
        )
    } else {
        None
    }
}

/// Whether positions in what was read are positions in it.
pub open spec fn is_sound(listing: ShareListingView) -> bool {
    &&& 0 <= listing.start <= listing.tree.len()
    &&& 0 <= listing.next <= listing.tree.len()
    &&& listing.top is Some ==> 0 <= listing.top->0 <= listing.tree.len()
}

/// Whether a sum of sizes is a size.
pub open spec fn sizes_fit(entries: Seq<FileEntryView>) -> bool {
    i64::MIN <= size_sum(entries) <= i64::MAX
}

/// What `folder_from` finds is the first folder that can be read, or the end.
proof fn lemma_folder_from(entries: Seq<FileEntryView>, i: int)
    requires
        0 <= i <= entries.len(),
    ensures
        i <= folder_from(entries, i) <= entries.len(),
        forall|j: int| i <= j < folder_from(entries, i) ==> !can_be_read(#[trigger] entries[j]),
        folder_from(entries, i) < entries.len() ==> can_be_read(entries[folder_from(entries, i)]),
    decreases entries.len() - i,
{
    if i < entries.len() && !can_be_read(entries[i]) {
        lemma_folder_from(entries, i + 1);
    }
}

// ---------------------------------------------------------------------------
// Reading
// ---------------------------------------------------------------------------

/// The sum of the sizes of the files among entries.
fn sum_sizes(entries: &Vec<FileEntry>) -> (r: i128)
    ensures
        r == size_sum(entries_view(entries@)),
{
    let mut sum: i128 = 0;
    let mut i: usize = 0;
    let n: usize = entries.len();
    let ghost all = entries_view(entries@);
    assert(all.take(0) =~= Seq::empty());
    while i < n
        invariant
            i <= n == entries@.len(),
            all == entries_view(entries@),
            sum == size_sum(all.take(i as int)),
            i * i64::MIN <= sum <= i * i64::MAX,
        decreases n - i,
    {
        assert(all.take(i + 1).drop_last() =~= all.take(i as int));
        assert(all.take(i + 1).last() == entries@[i as int]@);
        assert(i <= usize::MAX);
        if !entries[i].is_dir {
            sum = sum + entries[i].size as i128;
        }
        i = i + 1;
    }
    assert(all.take(i as int) =~= all);
    sum
}

/// How many of the entries are files.
fn count_files(entries: &Vec<FileEntry>) -> (r: usize)
    ensures
        r == files_among(entries_view(entries@)),
{
    let mut count: usize = 0;
    let mut i: usize = 0;
    let n: usize = entries.len();
    let ghost all = entries_view(entries@);
    assert(all.take(0) =~= Seq::empty());
    while i < n
        invariant
            i <= n == entries@.len(),
            all == entries_view(entries@),
            count == files_among(all.take(i as int)),
            count <= i,
        decreases n - i,
    {
        assert(all.take(i + 1).drop_last() =~= all.take(i as int));
        assert(all.take(i + 1).last() == entries@[i as int]@);
        if !entries[i].is_dir {
            count = count + 1;
        }
        i = i + 1;
    }
    assert(all.take(i as int) =~= all);
    count
}

/// The first `n` of the entries.
fn first_entries(entries: &Vec<FileEntry>, n: usize) -> (r: Vec<FileEntry>)
    requires
        n <= entries@.len(),
    ensures
        r@ == entries@.take(n as int),
{
    let mut r: Vec<FileEntry> = Vec::new();
    let mut i: usize = 0;
    while i < n
        invariant
            i <= n <= entries@.len(),
            r@ == entries@.take(i as int),
        decreases n - i,
    {
        r.push(entries[i].clone());
        i = i + 1;
    }
    r
}

/// Puts the entries of a page, with their paths, behind those that were read.
fn take_page(resp: &Json, path: &str, tree: &mut Vec<FileEntry>)
    ensures
        entries_view(final(tree)@) == entries_view(old(tree)@) + all_placed(
            entries_of(page_items(*resp)),
            path@,
        ),
{
    let mut page: Vec<FileEntry> = Vec::new();
    match resp.get("data") {
        Some(data) => match data.items_at("list") {
            Some(items) => add_entries(items, &mut page),
            None => {},
        },
        None => {},
    }
    let ghost before = entries_view(tree@);
    let ghost all = entries_of(page_items(*resp));
    assert(entries_view(page@) =~= all);
    let mut i: usize = 0;
    assert(before + all_placed(all.take(0), path@) =~= before);
    while i < page.len()
        invariant
            i <= page@.len(),
            entries_view(page@) == all,
            entries_view(tree@) == before + all_placed(all.take(i as int), path@),
        decreases page@.len() - i,
    {
        let ghost tree_before = tree@;
        let mut entry = page[i].clone();
        assert(entry@ == all[i as int]);
        entry.path = path_below(path, entry.name.as_str());
        tree.push(entry);
        assert(entry@ == placed(all[i as int], path@));
        assert(entries_view(tree@) =~= entries_view(tree_before).push(entry@));
        assert(all_placed(all.take(i + 1), path@) =~= all_placed(all.take(i as int), path@).push(
            entry@,
        ));
        assert(entries_view(tree@) =~= before + all_placed(all.take(i + 1), path@));
        i = i + 1;
    }
    assert(all.take(i as int) =~= all);
}

/// The first position at or after `from` of a folder that can be read; the length if there is none.
fn next_folder(tree: &Vec<FileEntry>, from: usize) -> (r: usize)
    requires
        from <= tree@.len(),
    ensures
        r == folder_from(entries_view(tree@), from as int),
        from <= r <= tree@.len(),
{
    let mut i: usize = from;
    let ghost all = entries_view(tree@);
    while i < tree.len() && !(tree[i].is_dir && tree[i].file_id.is_some())
        invariant
            from <= i <= tree@.len(),
            all == entries_view(tree@),
            folder_from(all, from as int) == folder_from(all, i as int),
        decreases tree@.len() - i,
    {
        assert(all[i as int] == tree@[i as int]@);
        i = i + 1;
    }
    if i < tree.len() {
        assert(all[i as int] == tree@[i as int]@);
    }
    i
}

impl Adapter115 {
    /// Begins to read what a share holds.
    pub fn parse_share(&self, share_code: &str, receive_code: Option<&str>) -> (r: ShareListing)
        ensures
            r@ == first_listing(share_code@, or_empty(str_view(receive_code))),
            is_sound(r@),
    {
        let receive_code = match receive_code {
            Some(c) => c.to_string(),
            None => String::new(),
        };
        let r = ShareListing {
            share_code: share_code.to_string(),
            receive_code,
            cid: "0".to_string(),
            path: String::new(),
            tree: Vec::new(),
            start: 0,
            next: 0,
            top: None,
        };
        assert(r@ =~= first_listing(share_code@, r.receive_code@));
        r
    }

    /// Whether a share can be used: it could be read.
    pub fn verify_share(outcome: &Result<ShareInfo, String>) -> (r: bool)
        ensures
            r == (outcome is Ok),
    {
        match outcome {
            Ok(_) => true,
            Err(_) => false,
        }
    }
}

/// A share of which nothing was read yet.
pub open spec fn first_listing(share_code: Seq<char>, receive_code: Seq<char>) -> ShareListingView {
    ShareListingView {
        share_code,
        receive_code,
        cid: "0"@,
        path: Seq::empty(),
        tree: Seq::empty(),
        start: 0,
        next: 0,
        top: None,
    }
}

impl ShareListing {
    /// Asks for the next page of the folder that is being read.
    pub fn request(&self) -> (r: Call)
        requires
            is_sound(self@),
        ensures
            r@ == asked(
                Method::Get,
                WEBAPI@,
                "/share/snap"@,
                seq![
                    ("share_code"@, self.share_code@),
                    ("receive_code"@, self.receive_code@),
                    ("cid"@, self.cid@),
                    ("limit"@, decimal(SHARE_PAGE as nat)),
                    ("offset"@, decimal((self.tree@.len() - self.start) as nat)),
                ],
            ),
    {
        assert(self@.tree.len() == self.tree@.len());
        let limit = decimal_u64(SHARE_PAGE);
        let read: usize = self.tree.len() - self.start;
        let offset = decimal_u64(read as u64);
        let r = Call::new(Method::Get, cat(WEBAPI, "/share/snap")).with(
            "share_code",
            self.share_code.as_str(),
        ).with("receive_code", self.receive_code.as_str()).with("cid", self.cid.as_str()).with(
            "limit",
            limit.as_str(),
        ).with("offset", offset.as_str());
        assert(r@.pairs =~= seq![
            ("share_code"@, self.share_code@),
            ("receive_code"@, self.receive_code@),
            ("cid"@, self.cid@),
            ("limit"@, decimal(SHARE_PAGE as nat)),
            ("offset"@, decimal((self.tree@.len() - self.start) as nat)),
        ]);
        r
    }

    /// Whether the sizes still add up to a size when a page is taken in.
    pub fn fits(&self, resp: &Json) -> (r: bool)
        ensures
            r == sizes_fit(read_with(self@, *resp)),
    {
        let mut tree = first_entries(&self.tree, self.tree.len());
        assert(tree@ =~= self.tree@);
        take_page(resp, self.path.as_str(), &mut tree);
        let sum: i128 = sum_sizes(&tree);
        i64::MIN as i128 <= sum && sum <= i64::MAX as i128
    }

    /// Takes a page in. Reading ends when all folders were read.
    pub fn page(self, resp: &Json) -> (r: Result<Page, String>)
        requires
            is_sound(self@),
            sizes_fit(read_with(self@, *resp)),
        ensures
            ({
                let all = read_with(self@, *resp);
                match r {
                    Ok(Page::More(next)) => {
                        &&& accepted(*resp)
                        &&& continued(self@, *resp) == Some(next@)
                        &&& is_sound(next@)
                    },
                    Ok(Page::Complete(info)) => {
                        &&& accepted(*resp)
                        &&& continued(self@, *resp) is None
                        &&& info.share_id == self.share_code
                        &&& entries_view(info.tree@) == all
                        &&& entries_view(info.top@) == all.take(
                            top_after(self@, all.len() as int),
                        )
                        &&& info.total_size == size_sum(all)
                        &&& info.file_count == files_among(all)
                    },
                    Err(e) => {
                        &&& !accepted(*resp)
                        &&& e@ == numbered_failure("解析分享失败"@, *resp)
                    },
                }
            }),
    {
        if !is_accepted(resp) {
            return Err(failure("解析分享失败", resp));
        }
        let ghost listing = self@;
        let mut tree = self.tree;
        let before: usize = tree.len();
        assert(listing.tree.len() == before);
        take_page(resp, self.path.as_str(), &mut tree);
        let after: usize = tree.len();
        let ghost all = read_with(listing, *resp);
        assert(entries_view(tree@) == all);
        assert(all.len() == after);
        let count: u64 = match resp.get("data") {
            Some(data) => match data.u64_at("count") {
                Some(n) => n,
                None => 0,
            },
            None => 0,
        };
        let read: usize = after - self.start;
        if (read as u64) < count && after > before {
            let next = ShareListing { tree, ..self };
            assert(continued(listing, *resp) == Some(next@));
            return Ok(Page::More(next));
        }
        let top: usize = match self.top {
            Some(n) => n,
            None => after,
        };
        let k: usize = next_folder(&tree, self.next);
        proof {
            lemma_folder_from(all, listing.next);
        }
        if k < after {
            assert(all[k as int] == tree@[k as int]@);
            let cid = match &tree[k].file_id {
                Some(id) => id.clone(),
                None => String::new(),
            };
            let path = tree[k].path.clone();
            let next = ShareListing {
                share_code: self.share_code,
                receive_code: self.receive_code,
                cid,
                path,
                tree,
                start: after,
                next: k + 1,
                top: Some(top),
            };
            assert(continued(listing, *resp) == Some(next@));
            Ok(Page::More(next))
        } else {
            let total_size: i64 = sum_sizes(&tree) as i64;
            let file_count: usize = count_files(&tree);
            let top = first_entries(&tree, top);
            assert(entries_view(top@) =~= all.take(top_after(listing, all.len() as int)));
            Ok(
                Page::Complete(
                    ShareInfo { share_id: self.share_code, total_size, file_count, top, tree },
                ),
            )
        }
    }
}

// ---------------------------------------------------------------------------
// Laws
// ---------------------------------------------------------------------------

/// What an entry holds, with the paths, where `drive` tells what folders hold.
pub open spec fn held_in(
    entry: FileEntryView,
    drive: spec_fn(Seq<char>) -> Seq<FileEntryView>,
) -> Seq<FileEntryView> {
    if can_be_read(entry) {
        all_placed(drive(entry.file_id->0), entry.path)
    } else {
        Seq::empty()
    }
}

/// What stands in the share itself, and in the first `k` of the entries.
pub open spec fn held_by_first(
    entries: Seq<FileEntryView>,
    k: nat,
    drive: spec_fn(Seq<char>) -> Seq<FileEntryView>,
) -> Seq<FileEntryView>
    decreases k,
{
    if k == 0 {
        all_placed(drive("0"@), Seq::empty())
    } else {
        held_by_first(entries, (k - 1) as nat, drive) + held_in(entries[k - 1], drive)
    }
}

/// Whether entries are all that a share holds: what stands in the share itself and in each of the
/// entries, and nothing else; and each of them stands in the share or in one that comes earlier.
pub open spec fn is_whole_share(
    entries: Seq<FileEntryView>,
    drive: spec_fn(Seq<char>) -> Seq<FileEntryView>,
) -> bool {
    &&& entries == held_by_first(entries, entries.len(), drive)
    &&& forall|k: nat| k < entries.len() ==> k < (#[trigger] held_by_first(entries, k, drive)).len()
}

/// Whether a page is what the drive holds: entries of the folder from the one on that was asked for,
/// and as long as there are some, with the number of all of them.
pub open spec fn is_true_page(
    listing: ShareListingView,
    resp: Json,
    drive: spec_fn(Seq<char>) -> Seq<FileEntryView>,
) -> bool {
    let folder = drive(listing.cid);
    let offset = listing.tree.len() - listing.start;
    let page = entries_of(page_items(resp));
    &&& page_count(resp) == folder.len()
    &&& offset + page.len() <= folder.len()
    &&& page == folder.subrange(offset, offset + page.len())
    &&& page.len() == 0 ==> offset == folder.len()
}

/// Whether listings, and the pages that they asked for, are the reading of a share from its
/// beginning on.
pub open spec fn is_share_reading(
    share_code: Seq<char>,
    receive_code: Seq<char>,
    drive: spec_fn(Seq<char>) -> Seq<FileEntryView>,
    listings: Seq<ShareListingView>,
    pages: Seq<Json>,
) -> bool {
    &&& listings.len() == pages.len()
    &&& listings.len() > 0
    &&& listings[0] == first_listing(share_code, receive_code)
    &&& forall|i: int|
        0 <= i < pages.len() ==> is_true_page(listings[i], #[trigger] pages[i], drive)
    &&& forall|i: int, j: int|
        0 <= i < listings.len() && j == i + 1 && j < listings.len() ==> continued(
            #[trigger] listings[i],
            pages[i],
        ) == Some(#[trigger] listings[j])
}

/// Whether what was read is what was to be read up to now: all that the share and the folders hold
/// that come first, and a part of the next folder.
spec fn is_part(
    listing: ShareListingView,
    drive: spec_fn(Seq<char>) -> Seq<FileEntryView>,
) -> bool {
    let offset = listing.tree.len() - listing.start;
    &&& is_sound(listing)
    &&& offset <= drive(listing.cid).len()
    &&& listing.tree.skip(listing.start) == all_placed(
        drive(listing.cid).take(offset),
        listing.path,
    )
    &&& match listing.top {
        None => {
            &&& listing.start == 0
            &&& listing.next == 0
            &&& listing.cid == "0"@
            &&& listing.path == Seq::<char>::empty()
        },
        Some(n) => {
            &&& n == drive("0"@).len()
            &&& 0 < listing.next <= listing.start
            &&& can_be_read(listing.tree[listing.next - 1])
            &&& listing.cid == listing.tree[listing.next - 1].file_id->0
            &&& listing.path == listing.tree[listing.next - 1].path
            &&& listing.tree.take(listing.start) == held_by_first(
                listing.tree,
                (listing.next - 1) as nat,
                drive,
            )
        },
    }
}

/// What the first of the entries hold does not depend on those that follow.
proof fn lemma_held_by_same(
    a: Seq<FileEntryView>,
    b: Seq<FileEntryView>,
    k: nat,
    drive: spec_fn(Seq<char>) -> Seq<FileEntryView>,
)
    requires
        k <= a.len(),
        k <= b.len(),
        forall|j: int| 0 <= j < k ==> a[j] == b[j],
    ensures
        held_by_first(a, k, drive) == held_by_first(b, k, drive),
    decreases k,
{
    if k > 0 {
        lemma_held_by_same(a, b, (k - 1) as nat, drive);
    }
}

/// What the first of the entries hold begins with what fewer of them hold, and that is the same
/// where those between hold nothing.
proof fn lemma_held_by_more(
    entries: Seq<FileEntryView>,
    a: nat,
    b: nat,
    drive: spec_fn(Seq<char>) -> Seq<FileEntryView>,
)
    requires
        a <= b <= entries.len(),
    ensures
        held_by_first(entries, a, drive).len() <= held_by_first(entries, b, drive).len(),
        held_by_first(entries, b, drive).take(
            held_by_first(entries, a, drive).len() as int,
        ) == held_by_first(entries, a, drive),
        (forall|j: int| a <= j < b ==> !can_be_read(#[trigger] entries[j])) ==> held_by_first(
            entries,
            b,
            drive,
        ) == held_by_first(entries, a, drive),
    decreases b,
{
    let x = held_by_first(entries, a, drive);
    if a == b {
        assert(x.take(x.len() as int) =~= x);
    } else {
        let c = (b - 1) as nat;
        lemma_held_by_more(entries, a, c, drive);
        let y = held_by_first(entries, c, drive);
        let z = held_by_first(entries, b, drive);
        assert(z.take(x.len() as int) =~= y.take(x.len() as int));
        if forall|j: int| a <= j < b ==> !can_be_read(#[trigger] entries[j]) {
            assert(!can_be_read(entries[c as int]));
            assert(z =~= y);
        }
    }
}

/// With a true page, what was read stays what was to be read; and where reading ends, it is all that
/// the share and the entries hold.
proof fn lemma_page(
    listing: ShareListingView,
    resp: Json,
    drive: spec_fn(Seq<char>) -> Seq<FileEntryView>,
)
    requires
        is_part(listing, drive),
        is_true_page(listing, resp, drive),
    ensures
        match continued(listing, resp) {
            Some(next) => {
                &&& is_part(next, drive)
                &&& listing.tree.len() + listing.next < next.tree.len() + next.next
                &&& next.tree == read_with(listing, resp)
            },
            None => {
                let all = read_with(listing, resp);
                &&& all == held_by_first(all, all.len(), drive)
                &&& top_after(listing, all.len() as int) == drive("0"@).len()
            },
        },
{
    let all = read_with(listing, resp);
    let page = entries_of(page_items(resp));
    let folder = drive(listing.cid);
    let start = listing.start;
    let offset = listing.tree.len() - start;
    let read = all.len() - start;
    assert(page.len() == page_items(resp).len());
    assert(all.len() == listing.tree.len() + page.len());
    assert(all.skip(start) =~= all_placed(folder.take(read), listing.path)) by {
        assert forall|j: int| 0 <= j < read implies all.skip(start)[j] == all_placed(
            folder.take(read),
            listing.path,
        )[j] by {
            if j < offset {
                assert(all.skip(start)[j] == listing.tree.skip(start)[j]);
                assert(folder.take(offset)[j] == folder[j]);
            } else {
                assert(all.skip(start)[j] == placed(page[j - offset], listing.path));
                assert(page[j - offset] == folder[j]);
            }
        }
    }
    if listing.top is Some {
        let h = (listing.next - 1) as nat;
        assert(all.take(start) =~= listing.tree.take(start));
        assert(all[h as int] == listing.tree[h as int]);
        assert forall|j: int| 0 <= j < h implies all[j] == listing.tree[j] by {}
        lemma_held_by_same(listing.tree, all, h, drive);
    }
    if folder_is_read(listing, resp) {
        assert(read == folder.len());
        assert(folder.take(read) =~= folder);
        assert(all =~= held_by_first(all, listing.next as nat, drive)) by {
            if listing.top is Some {
                assert(all =~= all.take(start) + all.skip(start));
            } else {
                assert(all.skip(0) =~= all);
            }
        }
        lemma_folder_from(all, listing.next);
        let k = folder_from(all, listing.next);
        lemma_held_by_more(all, listing.next as nat, k as nat, drive);
        if k < all.len() {
            let next = continued(listing, resp)->0;
            assert(next.tree.skip(next.start) =~= all_placed(
                drive(next.cid).take(0),
                next.path,
            ));
            assert(next.tree.take(next.start) =~= all);
        }
    } else {
        assert(page.len() > 0);
    }
}

/// Whatever a page holds, one that leads to another brings the reading forward: by entries, or by a
/// folder.
pub proof fn reading_goes_forward(listing: ShareListingView, resp: Json)
    requires
        is_sound(listing),
        continued(listing, resp) is Some,
    ensures
        ({
            let next = continued(listing, resp)->0;
            &&& is_sound(next)
            &&& listing.tree.len() + listing.next < next.tree.len() + next.next
        }),
{
    lemma_folder_from(read_with(listing, resp), listing.next);
    assert(entries_of(page_items(resp)).len() == page_items(resp).len());
}

/// What was read of a share is what the whole of it begins with, and each page brings the reading
/// forward.
proof fn lemma_share_reading(
    share_code: Seq<char>,
    receive_code: Seq<char>,
    drive: spec_fn(Seq<char>) -> Seq<FileEntryView>,
    whole: Seq<FileEntryView>,
    listings: Seq<ShareListingView>,
    pages: Seq<Json>,
    i: int,
)
    requires
        is_share_reading(share_code, receive_code, drive, listings, pages),
        is_whole_share(whole, drive),
        0 <= i < listings.len(),
    ensures
        is_part(listings[i], drive),
        i <= listings[i].tree.len() + listings[i].next,
        listings[i].tree.len() <= whole.len(),
        listings[i].tree == whole.take(listings[i].tree.len() as int),
    decreases i,
{
    let listing = listings[i];
    if i == 0 {
        assert(listing.tree.skip(0) =~= all_placed(
            drive(listing.cid).take(0),
            listing.path,
        ));
        assert(listing.tree =~= whole.take(0));
    } else {
        lemma_share_reading(
            share_code,
            receive_code,
            drive,
            whole,
            listings,
            pages,
            i - 1,
        );
        let before = listings[i - 1];
        assert(is_true_page(before, pages[i - 1], drive));
        assert(continued(before, pages[i - 1]) == Some(listing));
        lemma_page(before, pages[i - 1], drive);
        lemma_read_is_prefix(before, pages[i - 1], drive, whole);
    }
}

/// What was read with a true page is what the whole share begins with.
proof fn lemma_read_is_prefix(
    listing: ShareListingView,
    resp: Json,
    drive: spec_fn(Seq<char>) -> Seq<FileEntryView>,
    whole: Seq<FileEntryView>,
)
    requires
        is_part(listing, drive),
        is_true_page(listing, resp, drive),
        is_whole_share(whole, drive),
        listing.tree.len() <= whole.len(),
        listing.tree == whole.take(listing.tree.len() as int),
    ensures
        read_with(listing, resp).len() <= whole.len(),
        read_with(listing, resp) == whole.take(read_with(listing, resp).len() as int),
{
    let all = read_with(listing, resp);
    let page = entries_of(page_items(resp));
    let folder = drive(listing.cid);
    let offset = listing.tree.len() - listing.start;
    let k = listing.next as nat;
    lemma_held_by_more(whole, k, whole.len(), drive);
    let part = held_by_first(whole, k, drive);
    let placed_folder = all_placed(folder, listing.path);
    if listing.top is Some {
        let h = (k - 1) as nat;
        assert forall|j: int| 0 <= j < k implies listing.tree[j] == whole[j] by {}
        lemma_held_by_same(listing.tree, whole, h, drive);
        assert(part == listing.tree.take(listing.start) + placed_folder);
    } else {
        assert(part == placed_folder);
    }
    assert forall|j: int| 0 <= j < all.len() implies all[j] == part[j] by {
        if j < listing.tree.len() {
            assert(all[j] == listing.tree[j]);
            if j >= listing.start {
                assert(listing.tree.skip(listing.start)[j - listing.start] == listing.tree[j]);
                assert(placed_folder[j - listing.start] == placed(
                    folder[j - listing.start],
                    listing.path,
                ));
            }
        } else {
            let p = j - listing.tree.len();
            assert(all[j] == placed(page[p], listing.path));
            assert(page[p] == folder[offset + p]);
            assert(placed_folder[offset + p] == placed(folder[offset + p], listing.path));
        }
    }
    assert(all.len() <= part.len());
    assert(all =~= whole.take(all.len() as int)) by {
        assert forall|j: int| 0 <= j < all.len() implies all[j] == whole[j] by {
            assert(whole.take(part.len() as int)[j] == whole[j]);
        }
    }
}

/// A share is read whole: when the drive gives its pages as they were asked for, what comes out is
/// every file and every folder of the share, once and in order, with their paths; what stands in the
/// share itself comes first, and is told apart; and there are no more pages than twice as many as
/// files and folders, and one more.
pub proof fn shares_are_read_whole(
    share_code: Seq<char>,
    receive_code: Seq<char>,
    drive: spec_fn(Seq<char>) -> Seq<FileEntryView>,
    whole: Seq<FileEntryView>,
    listings: Seq<ShareListingView>,
    pages: Seq<Json>,
)
    requires
        is_share_reading(share_code, receive_code, drive, listings, pages),
        is_whole_share(whole, drive),
    ensures
        pages.len() <= 2 * whole.len() + 1,
        continued(listings.last(), pages.last()) is None ==> ({
            let all = read_with(listings.last(), pages.last());
            &&& all == whole
            &&& all.take(top_after(listings.last(), all.len() as int)) == all_placed(
                drive("0"@),
                Seq::empty(),
            )
        }),
{
    let n = listings.len() - 1;
    let last = listings[n];
    let resp = pages[n];
    lemma_share_reading(share_code, receive_code, drive, whole, listings, pages, n);
    if continued(last, resp) is None {
        let all = read_with(last, resp);
        assert(is_true_page(last, pages[n], drive));
        lemma_page(last, resp, drive);
        lemma_read_is_prefix(last, resp, drive, whole);
        lemma_held_by_same(all, whole, all.len(), drive);
        if all.len() < whole.len() {
            assert(all.len() < held_by_first(whole, all.len(), drive).len());
        }
        assert(all =~= whole);
        lemma_held_by_more(all, 0, all.len(), drive);
    }
}

} // verus!
