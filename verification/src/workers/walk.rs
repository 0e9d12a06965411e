//! Walking through folders, to find all files in them.

use vstd::prelude::*;

#[allow(unused_imports)]
use crate::adapters::adapter_115::{
    entries_view, path_below, path_in, placed, FileEntry, FileEntryView,
};
use crate::text::{cat, cat3};

verus! {

/// A walk: what is still to be looked at, with the path of the folder that it stands in, the next
/// one last; and the files that were found.
#[derive(Debug)]
pub struct Walk {
    pub stack: Vec<(FileEntry, String)>,
    pub out: Vec<FileEntry>,
}

/// A walk, over sequences of characters.
pub struct WalkView {
    pub stack: Seq<(FileEntryView, Seq<char>)>,
    pub out: Seq<FileEntryView>,
}

/// What is still to be looked at, over sequences of characters.
pub open spec fn stack_view(stack: Seq<(FileEntry, String)>) -> Seq<(FileEntryView, Seq<char>)> {
    stack.map_values(|e: (FileEntry, String)| (e.0@, e.1@))
}

impl View for Walk {
    type V = WalkView;

    open spec fn view(&self) -> WalkView {
        WalkView { stack: stack_view(self.stack@), out: entries_view(self.out@) }
    }
}

/// The entries with the path of their folder, the first one last.
pub open spec fn reversed(entries: Seq<FileEntryView>, parent: Seq<char>) -> Seq<
    (FileEntryView, Seq<char>),
> {
    Seq::new(entries.len(), |i: int| (entries[entries.len() - 1 - i], parent))
}

/// The walk up to the next folder that has to be listed: files are found on the way, and a folder
/// without an identifier is passed over.
pub open spec fn settled(walk: WalkView) -> (WalkView, Option<(Seq<char>, Seq<char>)>)
    decreases walk.stack.len(),
{
    if walk.stack.len() == 0 {
        (walk, None)
    } else {
        let (entry, parent) = walk.stack.last();
        let rest = walk.stack.drop_last();
        if !entry.is_dir {
            settled(WalkView { stack: rest, out: walk.out.push(placed(entry, parent)) })
        } else {
            match entry.file_id {
                Some(id) => (
                    WalkView { stack: rest, out: walk.out },
                    Some((id, path_in(parent, entry.name))),
                ),
                None => settled(WalkView { stack: rest, out: walk.out }),
            }
        }
    }
}

/// A folder that has to be listed.
#[derive(Debug)]
pub struct Folder {
    pub folder_id: String,
    pub path: String,
}

/// A folder over sequences of characters.
pub open spec fn folder_view(folder: Option<Folder>) -> Option<(Seq<char>, Seq<char>)> {
    match folder {
        Some(f) => Some((f.folder_id@, f.path@)),
        None => None,
    }
}

impl Walk {
    /// A walk through entries, in their order.
    pub fn new(entries: Vec<FileEntry>) -> (r: Self)
        ensures
            r@ == (WalkView {
                stack: reversed(entries_view(entries@), Seq::empty()),
                out: Seq::empty(),
            }),
    {
        let mut walk = Walk { stack: Vec::new(), out: Vec::new() };
        walk.listed("", entries);
        proof {
            reveal_strlit("");
            assert(""@ =~= Seq::<char>::empty());
            assert(walk@.stack =~= reversed(entries_view(entries@), Seq::empty()));
            assert(walk@.out =~= Seq::empty());
        }
        walk
    }

    /// Goes on to the next folder that has to be listed. Without one the walk is over.
    pub fn next(&mut self) -> (r: Option<Folder>)
        ensures
            (final(self)@, folder_view(r)) == settled(old(self)@),
    {
        loop
            invariant
                settled(self@) == settled(old(self)@),
            decreases self.stack@.len(),
        {
            let ghost before = self@;
            let ghost stack = self.stack@;
            match self.stack.pop() {
                Some((entry, parent)) => {
                    proof {
                        assert(before.stack.last() == (entry@, parent@));
                        assert(stack_view(self.stack@) =~= before.stack.drop_last());
                    }
                    let path = path_below(parent.as_str(), entry.name.as_str());
                    if !entry.is_dir {
                        let ghost found = self.out@;
                        let ghost view = entry@;
                        let mut file = entry;
                        file.path = path;
                        self.out.push(file);
                        proof {
                            assert(file@ == placed(view, parent@));
                            assert(entries_view(self.out@) =~= entries_view(found).push(file@));
                            assert(self@ == (WalkView {
                                stack: before.stack.drop_last(),
                                out: before.out.push(placed(view, parent@)),
                            }));
                        }
                    } else {
                        match entry.file_id {
                            Some(folder_id) => {
                                return Some(Folder { folder_id, path });
                            },
                            None => {},
                        }
                    }
                },
                None => {
                    assert(self@ == before);
                    return None;
                },
            }
        }
    }

    /// Takes in what a folder with a path holds.
    pub fn listed(&mut self, path: &str, children: Vec<FileEntry>)
        ensures
            final(self)@ == (WalkView {
                stack: old(self)@.stack + reversed(entries_view(children@), path@),
                out: old(self)@.out,
            }),
    {
        let ghost before = self@.stack;
        let ghost all = entries_view(children@);
        let ghost n = children@.len();
        let mut children = children;
        assert(before + reversed(all, path@).take(0) =~= before);
        while children.len() > 0
            invariant
                all.len() == n,
                children@.len() <= n,
                entries_view(children@) == all.take(children@.len() as int),
                self@.stack == before + reversed(all, path@).take(n - children@.len()),
                self@.out == old(self)@.out,
            decreases children@.len(),
        {
            let ghost k = children@.len() as int;
            let ghost view = entries_view(children@);
            let ghost stack = self.stack@;
            match children.pop() {
                Some(child) => {
                    proof {
                        assert(view[k - 1] == child@);
                        assert(all[k - 1] == child@);
                        assert(reversed(all, path@)[n - k] == (child@, path@));
                        assert(entries_view(children@) =~= all.take(k - 1));
                    }
                    self.stack.push((child, path.to_string()));
                    assert(stack_view(self.stack@) =~= stack_view(stack).push((child@, path@)));
                    assert(self@.stack =~= before + reversed(all, path@).take(n - k + 1));
                },
                None => {},
            }
        }
        assert(reversed(all, path@).take(n as int) =~= reversed(all, path@));
    }

    /// Why a walk could not go on: a folder could not be listed.
    pub fn listing_failed(folder: &Folder, reason: &str) -> (r: String)
        ensures
            r@ == "列举目录 "@ + folder.path@ + " 失败："@ + reason@,
    {
        let head = cat3("列举目录 ", folder.path.as_str(), " 失败：");
        cat(head.as_str(), reason)
    }
}

// ---------------------------------------------------------------------------
// What a walk finds
// ---------------------------------------------------------------------------

/// A file, or a folder with what stands in it.
pub struct Tree {
    pub entry: FileEntryView,
    pub children: Seq<Tree>,
}

/// The files of a tree that stands in a folder with the path `parent`, in order, with their paths.
/// What stands in a folder without an identifier cannot be seen.
pub open spec fn files_of(tree: Tree, parent: Seq<char>) -> Seq<FileEntryView>
    decreases tree, 0nat,
{
    if !tree.entry.is_dir {
        seq![placed(tree.entry, parent)]
    } else if tree.entry.file_id is None {
        Seq::empty()
    } else {
        files_from(tree.children, path_in(parent, tree.entry.name), 0)
    }
}

/// The files of trees from the `i`th on, in order, with their paths.
pub open spec fn files_from(trees: Seq<Tree>, parent: Seq<char>, i: nat) -> Seq<FileEntryView>
    decreases trees, (trees.len() - i) as nat,
{
    if i >= trees.len() {
        Seq::empty()
    } else {
        files_of(trees[i as int], parent) + files_from(trees, parent, i + 1)
    }
}

/// The files that are still to be found, in order.
pub open spec fn left(trees: Seq<(Tree, Seq<char>)>) -> Seq<FileEntryView>
    decreases trees.len(),
{
    if trees.len() == 0 {
        Seq::empty()
    } else {
        files_of(trees.last().0, trees.last().1) + left(trees.drop_last())
    }
}

/// Whether what is still to be looked at is made of the roots of trees.
pub open spec fn stands_for(
    stack: Seq<(FileEntryView, Seq<char>)>,
    trees: Seq<(Tree, Seq<char>)>,
) -> bool {
    &&& stack.len() == trees.len()
    &&& forall|i: int|
        0 <= i < stack.len() ==> #[trigger] stack[i] == (trees[i].0.entry, trees[i].1)
}

/// Trees with the path of their folder, the first one last.
pub open spec fn reversed_trees(trees: Seq<Tree>, parent: Seq<char>) -> Seq<(Tree, Seq<char>)> {
    Seq::new(trees.len(), |i: int| (trees[trees.len() - 1 - i], parent))
}

/// The roots of trees.
pub open spec fn roots(trees: Seq<Tree>) -> Seq<FileEntryView> {
    trees.map_values(|t: Tree| t.entry)
}

/// Trees put on top, the first one last, are found first, in their order.
proof fn lemma_left_reversed(base: Seq<(Tree, Seq<char>)>, trees: Seq<Tree>, parent: Seq<char>, i: nat)
    requires
        i <= trees.len(),
    ensures
        left(base + reversed_trees(trees, parent).take(trees.len() - i)) == files_from(
            trees,
            parent,
            i,
        ) + left(base),
    decreases trees.len() - i,
{
    let all = reversed_trees(trees, parent);
    let stack = base + all.take(trees.len() - i);
    if i == trees.len() {
        assert(stack =~= base);
        assert(files_from(trees, parent, i) + left(base) =~= left(base));
    } else {
        lemma_left_reversed(base, trees, parent, i + 1);
        let under = base + all.take(trees.len() - i - 1);
        assert(stack.drop_last() =~= under);
        assert(stack.last() == (trees[i as int], parent));
        assert(files_of(trees[i as int], parent) + (files_from(trees, parent, i + 1) + left(base))
            =~= files_of(trees[i as int], parent) + files_from(trees, parent, i + 1) + left(base));
    }
}

/// Where a walk begins, all files of the trees are still to be found.
pub proof fn walk_begins_with_everything(trees: Seq<Tree>, walk: WalkView)
    requires
        walk == (WalkView { stack: reversed(roots(trees), Seq::empty()), out: Seq::empty() }),
    ensures
        stands_for(walk.stack, reversed_trees(trees, Seq::empty())),
        walk.out + left(reversed_trees(trees, Seq::empty())) == files_from(trees, Seq::empty(), 0),
{
    let all = reversed_trees(trees, Seq::empty());
    lemma_left_reversed(Seq::empty(), trees, Seq::empty(), 0);
    assert(Seq::<(Tree, Seq<char>)>::empty() + all.take(trees.len() as int) =~= all);
    assert(files_from(trees, Seq::empty(), 0) + left(Seq::empty()) =~= files_from(
        trees,
        Seq::empty(),
        0,
    ));
    assert(walk.out + left(all) =~= left(all));
}

/// A step of a walk loses nothing and finds nothing twice: what was found, and what is still to be
/// found, is together what it was before, when the folder that has to be listed counts with what
/// stands in it.
pub proof fn walk_keeps_everything(walk: WalkView, trees: Seq<(Tree, Seq<char>)>) -> (r: (
    Seq<(Tree, Seq<char>)>,
    Option<Tree>,
))
    requires
        stands_for(walk.stack, trees),
    ensures
        stands_for(settled(walk).0.stack, r.0),
        r.0.len() <= trees.len(),
        r.0 == trees.take(r.0.len() as int),
        r.1 is Some ==> r.0.len() < trees.len() && r.1->0 == trees[r.0.len() as int].0,
        match settled(walk).1 {
            Some((id, path)) => {
                &&& r.1 is Some
                &&& r.1->0.entry.is_dir
                &&& r.1->0.entry.file_id == Some(id)
                &&& walk.out + left(trees) == settled(walk).0.out + (files_from(
                    r.1->0.children,
                    path,
                    0,
                ) + left(r.0))
            },
            None => {
                &&& r.0.len() == 0
                &&& walk.out + left(trees) == settled(walk).0.out
            },
        },
    decreases walk.stack.len(),
{
    if walk.stack.len() == 0 {
        assert(walk.out + left(trees) =~= walk.out);
        assert(trees.take(0) =~= trees);
        (trees, None)
    } else {
        let n = trees.len() - 1;
        let (entry, parent) = walk.stack.last();
        let tree = trees.last().0;
        assert(walk.stack[n] == (trees[n].0.entry, trees[n].1));
        let rest = trees.drop_last();
        assert(stands_for(walk.stack.drop_last(), rest)) by {
            assert forall|i: int| 0 <= i < rest.len() implies #[trigger] walk.stack.drop_last()[i]
                == (rest[i].0.entry, rest[i].1) by {
                assert(walk.stack[i] == (trees[i].0.entry, trees[i].1));
            }
        }
        if !entry.is_dir {
            let next = WalkView {
                stack: walk.stack.drop_last(),
                out: walk.out.push(placed(entry, parent)),
            };
            assert(walk.out + (seq![placed(entry, parent)] + left(rest)) =~= next.out + left(rest));
            let r = walk_keeps_everything(next, rest);
            assert(rest.take(r.0.len() as int) =~= trees.take(r.0.len() as int));
            r
        } else if entry.file_id is None {
            let next = WalkView { stack: walk.stack.drop_last(), out: walk.out };
            assert(Seq::<FileEntryView>::empty() + left(rest) =~= left(rest));
            let r = walk_keeps_everything(next, rest);
            assert(rest.take(r.0.len() as int) =~= trees.take(r.0.len() as int));
            r
        } else {
            assert(trees.take(n) =~= rest);
            (rest, Some(tree))
        }
    }
}

/// Taking in what a folder holds puts the trees in it on top of what is still to be found.
pub proof fn listing_keeps_everything(
    walk: WalkView,
    trees: Seq<(Tree, Seq<char>)>,
    children: Seq<Tree>,
    path: Seq<char>,
)
    requires
        stands_for(walk.stack, trees),
    ensures
        stands_for(
            walk.stack + reversed(roots(children), path),
            trees + reversed_trees(children, path),
        ),
        left(trees + reversed_trees(children, path)) == files_from(children, path, 0) + left(trees),
{
    lemma_left_reversed(trees, children, path, 0);
    assert(reversed_trees(children, path).take(children.len() as int) =~= reversed_trees(
        children,
        path,
    ));
    let stack = walk.stack + reversed(roots(children), path);
    let all = trees + reversed_trees(children, path);
    assert forall|i: int| 0 <= i < stack.len() implies #[trigger] stack[i] == (
        all[i].0.entry,
        all[i].1,
    ) by {
        if i < walk.stack.len() {
            assert(stack[i] == walk.stack[i]);
            assert(all[i] == trees[i]);
        }
    }
}

/// Whether the drive lists the folders of a tree as they are: `listing` gives what each of them
/// holds.
pub open spec fn agrees(tree: Tree, listing: spec_fn(Seq<char>) -> Seq<FileEntryView>) -> bool
    decreases tree, 0nat,
{
    tree.entry.is_dir && tree.entry.file_id is Some ==> {
        &&& roots(tree.children) == listing(tree.entry.file_id->0)
        &&& agree_from(tree.children, listing, 0)
    }
}

/// Whether the drive lists the folders of trees as they are, from the `i`th tree on.
pub open spec fn agree_from(
    trees: Seq<Tree>,
    listing: spec_fn(Seq<char>) -> Seq<FileEntryView>,
    i: nat,
) -> bool
    decreases trees, (trees.len() - i) as nat,
{
    i < trees.len() ==> agrees(trees[i as int], listing) && agree_from(trees, listing, i + 1)
}

/// Where trees agree with the drive, each of them does.
proof fn lemma_agree(
    trees: Seq<Tree>,
    listing: spec_fn(Seq<char>) -> Seq<FileEntryView>,
    i: nat,
    k: int,
)
    requires
        agree_from(trees, listing, i),
        i <= k < trees.len(),
    ensures
        agrees(trees[k], listing),
    decreases trees.len() - i,
{
    if i < k {
        lemma_agree(trees, listing, i + 1, k);
    }
}

/// Whether a walk is another one after what the folder holds that it asked for was taken in.
pub open spec fn lists_next(
    before: WalkView,
    listing: spec_fn(Seq<char>) -> Seq<FileEntryView>,
    after: WalkView,
) -> bool {
    let (walk, folder) = settled(before);
    match folder {
        Some((id, path)) => after == (WalkView {
            stack: walk.stack + reversed(listing(id), path),
            out: walk.out,
        }),
        None => false,
    }
}

/// Whether walks are those of one walk through trees, each with what was listed since the one
/// before.
pub open spec fn is_walk(
    trees: Seq<Tree>,
    listing: spec_fn(Seq<char>) -> Seq<FileEntryView>,
    walks: Seq<WalkView>,
) -> bool {
    &&& walks.len() > 0
    &&& walks[0] == (WalkView { stack: reversed(roots(trees), Seq::empty()), out: Seq::empty() })
    &&& forall|i: int, j: int|
        0 <= i < walks.len() && j == i + 1 && j < walks.len() ==> lists_next(
            #[trigger] walks[i],
            listing,
            #[trigger] walks[j],
        )
}

/// What a walk has found, and what is still to be found, is together everything.
proof fn lemma_walk(
    trees: Seq<Tree>,
    listing: spec_fn(Seq<char>) -> Seq<FileEntryView>,
    walks: Seq<WalkView>,
) -> (stack: Seq<(Tree, Seq<char>)>)
    requires
        agree_from(trees, listing, 0),
        is_walk(trees, listing, walks),
    ensures
        stands_for(walks.last().stack, stack),
        forall|k: int| 0 <= k < stack.len() ==> agrees((#[trigger] stack[k]).0, listing),
        walks.last().out + left(stack) == files_from(trees, Seq::empty(), 0),
    decreases walks.len(),
{
    if walks.len() == 1 {
        let stack = reversed_trees(trees, Seq::empty());
        walk_begins_with_everything(trees, walks[0]);
        assert forall|k: int| 0 <= k < stack.len() implies agrees(
            (#[trigger] stack[k]).0,
            listing,
        ) by {
            lemma_agree(trees, listing, 0, trees.len() - 1 - k);
        }
        stack
    } else {
        let n = walks.len() - 1;
        let before = walks.drop_last();
        assert(is_walk(trees, listing, before));
        let earlier = lemma_walk(trees, listing, before);
        let last = before.last();
        assert(lists_next(walks[n - 1], listing, walks[n]));
        let (rest, found) = walk_keeps_everything(last, earlier);
        let (walk, folder) = settled(last);
        let (id, path) = folder->0;
        let tree = found->0;
        assert(agrees(earlier[rest.len() as int].0, listing));
        listing_keeps_everything(walk, rest, tree.children, path);
        let stack = rest + reversed_trees(tree.children, path);
        assert forall|j: int| 0 <= j < stack.len() implies agrees(
            (#[trigger] stack[j]).0,
            listing,
        ) by {
            if j < rest.len() {
                assert(rest[j] == earlier[j]);
            } else {
                lemma_agree(tree.children, listing, 0, tree.children.len() - 1 - (j - rest.len()));
            }
        }
        stack
    }
}

/// A walk that is over has found every file of the trees that it went through, each once, in their
/// order and with its path.
pub proof fn walks_find_everything(
    trees: Seq<Tree>,
    listing: spec_fn(Seq<char>) -> Seq<FileEntryView>,
    walks: Seq<WalkView>,
)
    requires
        agree_from(trees, listing, 0),
        is_walk(trees, listing, walks),
        settled(walks.last()).1 is None,
    ensures
        settled(walks.last()).0.out == files_from(trees, Seq::empty(), 0),
{
    let stack = lemma_walk(trees, listing, walks);
    walk_keeps_everything(walks.last(), stack);
}

} // verus!
