//! Reading what a folder holds, page by page.

use vstd::prelude::*;

#[allow(unused_imports)]
use crate::adapters::adapter_115::{
    asked, entries_of, entries_view, Adapter115, FileEntry, FileEntryView, FOLDER_PAGE, WEBAPI,
};
#[allow(unused_imports)]
use crate::call::{Call, CallView, Method};
#[allow(unused_imports)]
use crate::json::{field, items_of, Json};
#[allow(unused_imports)]
use crate::text::cat;
#[allow(unused_imports)]
use crate::text::number::{decimal, decimal_u64};

verus! {

/// A folder whose entries are being read. The next page begins behind those that were read.
#[derive(Debug)]
pub struct FolderListing {
    pub cid: String,
    pub files: Vec<FileEntry>,
}

/// What a page of a folder leads to.
#[derive(Debug)]
pub enum FolderPage {
    /// There may be more to read.
    More(FolderListing),
    /// All was read.
    Complete(Vec<FileEntry>),
}

/// The question for what a folder holds from a position on, one level deep.
pub open spec fn listing_of(cid: Seq<char>, offset: nat) -> CallView {
    asked(
        Method::Get,
        WEBAPI@,
        "/files"@,
        seq![
            ("cid"@, cid),
            ("show_dir"@, "1"@),
            ("limit"@, "1150"@),
            ("offset"@, decimal(offset)),
            ("aid"@, "1"@),
            ("count_folders"@, "1"@),
            ("record_open_time"@, "1"@),
        ],
    )
}

/// Entries that stand in a folder.
pub open spec fn within_folder(entries: Seq<FileEntryView>, cid: Seq<char>) -> Seq<FileEntryView> {
    entries.map_values(|e: FileEntryView| FileEntryView { folder_id: cid, ..e })
}

/// The entries on a page of a folder.
pub open spec fn listed_on(cid: Seq<char>, resp: Json) -> Seq<FileEntryView> {
    within_folder(entries_of(items_of(field(resp, "data"@))), cid)
}

/// Whether reading goes on with `next` after a page: the page was full.
pub open spec fn goes_on(listing: FolderListing, resp: Json, next: FolderListing) -> bool {
    &&& listed_on(listing.cid@, resp).len() >= FOLDER_PAGE
    &&& next.cid == listing.cid
    &&& entries_view(next.files@) == entries_view(listing.files@) + listed_on(listing.cid@, resp)
}

impl Adapter115 {
    /// Begins to read what a folder holds.
    pub fn list_files(&self, cid: &str) -> (r: FolderListing)
        ensures
            r.cid@ == cid@,
            r.files@.len() == 0,
    {
        FolderListing { cid: cid.to_string(), files: Vec::new() }
    }
}

impl FolderListing {
    /// Asks for the next page.
    pub fn request(&self) -> (r: Call)
        ensures
            r@ == listing_of(self.cid@, self.files@.len()),
    {
        let offset = decimal_u64(self.files.len() as u64);
        let r = Call::new(Method::Get, cat(WEBAPI, "/files")).with("cid", self.cid.as_str()).with(
            "show_dir",
            "1",
        ).with("limit", "1150").with("offset", offset.as_str()).with("aid", "1").with(
            "count_folders",
            "1",
        ).with("record_open_time", "1");
        assert(r@.pairs =~= listing_of(self.cid@, self.files@.len()).pairs);
        r
    }

    /// Takes a page in. Reading ends with a page that is not full.
    pub fn page(self, resp: &Json) -> (r: FolderPage)
        ensures
            match r {
                FolderPage::More(next) => goes_on(self, *resp, next),
                FolderPage::Complete(files) => {
                    &&& listed_on(self.cid@, *resp).len() < FOLDER_PAGE
                    &&& entries_view(files@) == entries_view(self.files@) + listed_on(self.cid@, *resp)
                },
            },
    {
        let mut files = self.files;
        let ghost before = entries_view(files@);
        let page = Adapter115::list_reply(resp);
        let ghost entries = entries_view(page@);
        let ghost all = listed_on(self.cid@, *resp);
        assert(entries.len() == page@.len());
        let full = page.len() as u64 >= FOLDER_PAGE;
        let mut i: usize = 0;
        assert(entries_view(files@) =~= before + all.take(0));
        while i < page.len()
            invariant
                i <= page@.len(),
                entries == entries_view(page@),
                all == within_folder(entries, self.cid@),
                entries_view(files@) == before + all.take(i as int),
            decreases page@.len() - i,
        {
            let ghost read = files@;
            let mut entry = page[i].clone();
            assert(entry@ == entries[i as int]);
            entry.folder_id = self.cid.clone();
            files.push(entry);
            assert(entry@ == all[i as int]);
            assert(entries_view(files@) =~= entries_view(read).push(entry@));
            assert(entries_view(files@) =~= before + all.take(i + 1));
            i = i + 1;
        }
        assert(all.take(i as int) =~= all);
        if full {
            FolderPage::More(FolderListing { cid: self.cid, files })
        } else {
            FolderPage::Complete(files)
        }
    }
}

/// What stands on the page of a folder that begins at a position.
pub open spec fn page_at(all: Seq<FileEntryView>, offset: int) -> Seq<FileEntryView> {
    if offset + FOLDER_PAGE < all.len() {
        all.subrange(offset, offset + FOLDER_PAGE)
    } else {
        all.skip(offset)
    }
}

/// Whether listings, and the pages that they asked for, are the reading of a folder that holds
/// `all`, from its beginning on.
pub open spec fn is_reading(
    all: Seq<FileEntryView>,
    listings: Seq<FolderListing>,
    pages: Seq<Json>,
) -> bool {
    &&& listings.len() == pages.len()
    &&& listings.len() > 0
    &&& listings[0].files@.len() == 0
    &&& forall|i: int|
        0 <= i < pages.len() ==> listed_on(listings[i].cid@, #[trigger] pages[i]) == page_at(
            all,
            listings[i].files@.len() as int,
        )
    &&& forall|i: int, j: int|
        0 <= i < listings.len() && j == i + 1 && j < listings.len() ==> goes_on(
            #[trigger] listings[i],
            pages[i],
            #[trigger] listings[j],
        )
}

/// What was read of a folder is what it begins with.
proof fn lemma_reading(all: Seq<FileEntryView>, listings: Seq<FolderListing>, pages: Seq<Json>, i: int)
    requires
        is_reading(all, listings, pages),
        0 <= i < listings.len(),
    ensures
        listings[i].files@.len() == i * FOLDER_PAGE <= all.len(),
        entries_view(listings[i].files@) == all.take(i * FOLDER_PAGE),
    decreases i,
{
    let files = entries_view(listings[i].files@);
    assert(files.len() == listings[i].files@.len());
    if i == 0 {
        assert(files =~= all.take(0));
    } else {
        lemma_reading(all, listings, pages, i - 1);
        let earlier = listings[i - 1];
        assert(goes_on(earlier, pages[i - 1], listings[i]));
        assert(listed_on(earlier.cid@, pages[i - 1]) == page_at(all, earlier.files@.len() as int));
        assert((i - 1) * FOLDER_PAGE + FOLDER_PAGE == i * FOLDER_PAGE) by (nonlinear_arith);
        assert(files =~= all.take(i * FOLDER_PAGE));
    }
}

/// A folder is read whole: when the drive gives each page as it was asked for, reading ends after
/// one page more than are full, with every entry of the folder, once and in order.
pub proof fn folders_are_read_whole(
    all: Seq<FileEntryView>,
    listings: Seq<FolderListing>,
    pages: Seq<Json>,
)
    requires
        is_reading(all, listings, pages),
    ensures
        pages.len() <= all.len() / (FOLDER_PAGE as nat) + 1,
        listed_on(listings.last().cid@, pages.last()).len() < FOLDER_PAGE ==> entries_view(listings.last().files@)
            + listed_on(listings.last().cid@, pages.last()) == all,
{
    let n = listings.len() - 1;
    lemma_reading(all, listings, pages, n);
    assert(listed_on(listings[n].cid@, pages[n]) == page_at(all, listings[n].files@.len() as int));
    assert(n <= all.len() / (FOLDER_PAGE as nat)) by {
        vstd::arithmetic::div_mod::lemma_div_is_ordered(
            n * FOLDER_PAGE,
            all.len() as int,
            FOLDER_PAGE as int,
        );
        vstd::arithmetic::div_mod::lemma_div_by_multiple(n, FOLDER_PAGE as int);
    }
    if listed_on(listings.last().cid@, pages.last()).len() < FOLDER_PAGE {
        assert(entries_view(listings.last().files@) + listed_on(listings.last().cid@, pages.last()) =~= all);
    }
}

} // verus!
