use vstd::prelude::*;

use crate::errors::{BuildError, BuildErrorView};
use crate::paths::{extension_matches, join_path, spec_extension_of, spec_join};

verus! {

// The resolver works on a snapshot of a directory tree, taken by the
// embedding application: names live on the edges (directory entries), and a
// node is a plain file, a directory with its entries in enumeration order,
// or a directory that could not be listed. Keeping the enumeration order in
// the snapshot is what makes resolution deterministic for a fixed tree.

/// One directory entry: a name and the node it leads to.
pub struct FsDirEntry {
    pub name: String,
    pub tree: FsTree,
}

/// A node of a directory-tree snapshot.
pub enum FsTree {
    /// A plain file.
    File,
    /// A directory that could not be opened or listed.
    Unreadable,
    /// A directory with its entries in enumeration order.
    Dir { entries: Vec<FsDirEntry> },
}

/// The paths of the source files found below the directory `t` (rooted at
/// path `base`), in depth-first enumeration order: a directory entry
/// recurses, a file entry is included iff its extension is exactly `ext`.
/// `Err` carries the path of the first directory that cannot be listed;
/// a walk never partially succeeds.
pub open spec fn spec_walk(base: Seq<char>, t: FsTree, ext: Seq<char>) -> Result<
    Seq<Seq<char>>,
    Seq<char>,
>
    decreases t,
{
    match t {
        FsTree::File => Err(base),
        FsTree::Unreadable => Err(base),
        FsTree::Dir { entries } => spec_walk_entries(base, entries@, ext),
    }
}

/// The walk over a directory's remaining entries.
pub open spec fn spec_walk_entries(base: Seq<char>, es: Seq<FsDirEntry>, ext: Seq<char>) -> Result<
    Seq<Seq<char>>,
    Seq<char>,
>
    decreases es, es.len(),
{
    if es.len() == 0 {
        Ok(Seq::empty())
    } else {
        let child = spec_join(base, es[0].name@);
        let head: Result<Seq<Seq<char>>, Seq<char>> = match es[0].tree {
            FsTree::File => Ok(
                if spec_extension_of(es[0].name@) == Some(ext) {
                    seq![child]
                } else {
                    Seq::empty()
                },
            ),
            FsTree::Unreadable => Err(child),
            FsTree::Dir { .. } => spec_walk(child, es[0].tree, ext),
        };
        match head {
            Err(p) => Err(p),
            Ok(h) => match spec_walk_entries(base, es.skip(1), ext) {
                Err(p) => Err(p),
                Ok(r) => Ok(h + r),
            },
        }
    }
}

/// Whether the node `t` is a directory whose whole subtree can be listed.
pub open spec fn spec_tree_listable(t: FsTree) -> bool
    decreases t,
{
    match t {
        FsTree::Dir { entries } => spec_entries_listable(entries@),
        _ => false,
    }
}

/// Whether every directory among `es` can be listed, recursively.
pub open spec fn spec_entries_listable(es: Seq<FsDirEntry>) -> bool
    decreases es, es.len(),
{
    if es.len() == 0 {
        true
    } else {
        (match es[0].tree {
            FsTree::File => true,
            FsTree::Unreadable => false,
            FsTree::Dir { .. } => spec_tree_listable(es[0].tree),
        }) && spec_entries_listable(es.skip(1))
    }
}

/// Whether the directory `t` holds, anywhere below it, a file whose
/// extension is exactly `ext`.
pub open spec fn spec_tree_has_source(t: FsTree, ext: Seq<char>) -> bool
    decreases t,
{
    match t {
        FsTree::Dir { entries } => spec_entries_have_source(entries@, ext),
        _ => false,
    }
}

/// Whether any entry of `es` is, or holds below it, a file whose extension
/// is exactly `ext`.
pub open spec fn spec_entries_have_source(es: Seq<FsDirEntry>, ext: Seq<char>) -> bool
    decreases es, es.len(),
{
    if es.len() == 0 {
        false
    } else {
        (match es[0].tree {
            FsTree::File => spec_extension_of(es[0].name@) == Some(ext),
            FsTree::Unreadable => false,
            FsTree::Dir { .. } => spec_tree_has_source(es[0].tree, ext),
        }) || spec_entries_have_source(es.skip(1), ext)
    }
}

/// Law: a listable directory tree with no file of the target extension
/// resolves to the empty list — the walk succeeds and finds nothing.
pub proof fn lemma_walk_empty_when_no_source(base: Seq<char>, t: FsTree, ext: Seq<char>)
    requires
        spec_tree_listable(t),
        !spec_tree_has_source(t, ext),
    ensures
        spec_walk(base, t, ext) == Ok::<Seq<Seq<char>>, Seq<char>>(Seq::empty()),
    decreases t,
{
    match t {
        FsTree::Dir { entries } => {
            lemma_walk_entries_empty_when_no_source(base, entries@, ext);
        },
        _ => {},
    }
}

proof fn lemma_walk_entries_empty_when_no_source(base: Seq<char>, es: Seq<FsDirEntry>, ext: Seq<
    char,
>)
    requires
        spec_entries_listable(es),
        !spec_entries_have_source(es, ext),
    ensures
        spec_walk_entries(base, es, ext) == Ok::<Seq<Seq<char>>, Seq<char>>(Seq::empty()),
    decreases es, es.len(),
{
    if es.len() == 0 {
    } else {
        let child = spec_join(base, es[0].name@);
        match es[0].tree {
            FsTree::File => {},
            FsTree::Unreadable => {},
            FsTree::Dir { .. } => {
                lemma_walk_empty_when_no_source(child, es[0].tree, ext);
            },
        }
        lemma_walk_entries_empty_when_no_source(base, es.skip(1), ext);
        assert(Seq::<Seq<char>>::empty() + Seq::<Seq<char>>::empty() =~= Seq::<
            Seq<char>,
        >::empty());
    }
}

/// Walks the snapshot `tree`, rooted at path `base`, appending to `output`
/// the path of every file below it whose extension is exactly `extension`,
/// in enumeration order. Fails, naming the offending path, when `tree` (or
/// any directory below it) is not a listable directory; `output` is then
/// meaningless and the caller discards it.
pub fn dir_walk(base: &str, tree: &FsTree, extension: &str, output: &mut Vec<String>) -> (r:
    Result<(), BuildError>)
    ensures
        match spec_walk(base@, *tree, extension@) {
            Ok(files) => r is Ok && final(output).deep_view() == old(output).deep_view() + files,
            Err(p) => r matches Err(e) && e@ == BuildErrorView::DirectoryUnreadable(p),
        },
    decreases *tree,
{
    match tree {
        FsTree::File => Err(BuildError::DirectoryUnreadable(String::from_str(base))),
        FsTree::Unreadable => Err(BuildError::DirectoryUnreadable(String::from_str(base))),
        FsTree::Dir { entries } => {
            let ghost es = entries@;
            let ghost all = spec_walk_entries(base@, es, extension@);
            let ghost mut done: Seq<Seq<char>> = Seq::empty();
            proof {
                assert(spec_walk(base@, *tree, extension@) == all);
                assert(es.skip(0) =~= es);
                assert(output.deep_view() =~= output.deep_view() + done);
            }
            let mut j: usize = 0;
            while j < entries.len()
                invariant
                    j <= entries.len(),
                    es == entries@,
                    *tree is Dir,
                    tree->Dir_entries@ == es,
                    all == spec_walk_entries(base@, es, extension@),
                    all == spec_walk(base@, *tree, extension@),
                    output.deep_view() == old(output).deep_view() + done,
                    all == (match spec_walk_entries(base@, es.skip(j as int), extension@) {
                        Err(p) => Err::<Seq<Seq<char>>, Seq<char>>(p),
                        Ok(r) => Ok::<Seq<Seq<char>>, Seq<char>>(done + r),
                    }),
                decreases entries.len() - j,
            {
                let ghost rest = es.skip(j as int);
                proof {
                    assert(rest[0] == es[j as int]);
                    assert(rest.skip(1) =~= es.skip(j + 1));
                }
                let e = &entries[j];
                let child = join_path(base, e.name.as_str());
                match &e.tree {
                    FsTree::File => {
                        if extension_matches(e.name.as_str(), extension) {
                            let ghost prev = output.deep_view();
                            let ghost c = spec_join(base@, es[j as int].name@);
                            output.push(child);
                            proof {
                                assert(output.deep_view() =~= prev.push(c));
                                let prev_done = done;
                                done = done.push(c);
                                assert(old(output).deep_view() + done =~= prev.push(c));
                                if let Ok(r) = spec_walk_entries(base@, es.skip(j + 1), extension@) {
                                    assert(prev_done + (seq![c] + r) =~= done + r);
                                }
                            }
                        } else {
                            proof {
                                if let Ok(r) = spec_walk_entries(base@, es.skip(j + 1), extension@) {
                                    assert(done + (Seq::<Seq<char>>::empty() + r) =~= done + r);
                                }
                            }
                        }
                    },
                    FsTree::Unreadable => {
                        proof {
                            assert(spec_walk_entries(base@, es.skip(j as int), extension@)
                                == Err::<Seq<Seq<char>>, Seq<char>>(
                                spec_join(base@, es[j as int].name@),
                            ));
                        }
                        return Err(BuildError::DirectoryUnreadable(child));
                    },
                    FsTree::Dir { entries: _sub } => {
                        proof {
                            assert(decreases_to!(*tree => tree->Dir_entries));
                            assert(decreases_to!(tree->Dir_entries => tree->Dir_entries@));
                            assert(decreases_to!(tree->Dir_entries@ => tree->Dir_entries@[j as int]));
                            assert(decreases_to!(tree->Dir_entries@[j as int] => tree->Dir_entries@[j as int].tree));
                            assert(decreases_to!(*tree => es[j as int].tree));
                        }
                        let sub = dir_walk(child.as_str(), &e.tree, extension, output);
                        match sub {
                            Ok(()) => {
                                proof {
                                    let files = spec_walk(
                                        spec_join(base@, es[j as int].name@),
                                        es[j as int].tree,
                                        extension@,
                                    )->Ok_0;
                                    let prev_done = done;
                                    done = done + files;
                                    assert(old(output).deep_view() + done =~= (old(
                                        output,
                                    ).deep_view() + prev_done) + files);
                                    if let Ok(r) = spec_walk_entries(base@, es.skip(j + 1), extension@) {
                                        assert(prev_done + (files + r) =~= done + r);
                                    }
                                }
                            },
                            Err(err) => {
                                return Err(err);
                            },
                        }
                    },
                }
                j = j + 1;
            }
            proof {
                assert(es.skip(entries@.len() as int).len() == 0);
                assert(done + Seq::<Seq<char>>::empty() =~= done);
            }
            Ok(())
        },
    }
}

} // verus!
