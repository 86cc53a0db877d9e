//! What directory trees take on disk.

use vstd::prelude::*;

verus! {

/// One entry of a directory. An entry that cannot be read is left out.
#[derive(Debug)]
pub enum Entry {
    Directory(Vec<Entry>),
    /// A regular file, with its size.
    File(u64),
    /// A symbolic link, with the size of what it leads to where that is a
    /// regular file. A link to a directory is not followed.
    Link(Option<u64>),
    /// Anything else.
    Other,
}

/// The size of an entry: that of the regular files in it, those that links lead
/// to as well.
pub open spec fn entry_size(e: Entry) -> int
    decreases e,
{
    match e {
        Entry::Directory(entries) => tree_size(entries@),
        Entry::File(bytes) => bytes as int,
        Entry::Link(Some(bytes)) => bytes as int,
        _ => 0,
    }
}

/// The size of a directory.
pub open spec fn tree_size(entries: Seq<Entry>) -> int
    decreases entries,
{
    if entries.len() == 0 {
        0
    } else {
        entry_size(entries[0]) + tree_size(entries.subrange(1, entries.len() as int))
    }
}

/// A size that can be written.
pub open spec fn is_countable(entries: Seq<Entry>) -> bool {
    tree_size(entries) <= u64::MAX
}

proof fn sizes_are_not_negative(entries: Seq<Entry>)
    ensures
        tree_size(entries) >= 0,
        forall|i: int| 0 <= i < entries.len() ==> 0 <= entry_size(#[trigger] entries[i]) <= tree_size(entries),
    decreases entries,
{
    if entries.len() > 0 {
        let rest = entries.subrange(1, entries.len() as int);
        sizes_are_not_negative(rest);
        match entries[0] {
            Entry::Directory(inner) => {
                sizes_are_not_negative(inner@);
                assert(entry_size(entries[0]) == tree_size(inner@));
            },
            _ => {},
        }
        assert(entry_size(entries[0]) >= 0);
        assert(tree_size(entries) == entry_size(entries[0]) + tree_size(rest));
        assert forall|i: int| 0 <= i < entries.len() implies 0 <= entry_size(#[trigger] entries[i]) <= tree_size(
            entries,
        ) by {
            if i > 0 {
                assert(rest[i - 1] == entries[i]);
            }
        }
    }
}

/// See [`tree_size`].
pub fn dir_size(entries: &Vec<Entry>) -> (r: u64)
    requires
        is_countable(entries@),
    ensures
        r == tree_size(entries@),
    decreases entries@,
{
    let mut total: u64 = 0;
    let mut i: usize = 0;
    assert(entries@.subrange(0, entries@.len() as int) =~= entries@);
    while i < entries.len()
        invariant
            i <= entries@.len(),
            is_countable(entries@),
            total + tree_size(entries@.subrange(i as int, entries@.len() as int)) == tree_size(entries@),
        decreases entries@.len() - i,
    {
        let ghost rest = entries@.subrange(i as int, entries@.len() as int);
        proof {
            sizes_are_not_negative(rest);
            sizes_are_not_negative(entries@);
            assert(rest[0] == entries@[i as int]);
            assert(rest.subrange(1, rest.len() as int) =~= entries@.subrange(i + 1, entries@.len() as int));
            sizes_are_not_negative(rest.subrange(1, rest.len() as int));
        }
        let size: u64 = match &entries[i] {
            Entry::Directory(inner) => dir_size(inner),
            Entry::File(bytes) => *bytes,
            Entry::Link(Some(bytes)) => *bytes,
            _ => 0,
        };
        total = total + size;
        i = i + 1;
    }
    total
}

/// A directory is as large as what is in it: each file by its bytes, each link by
/// those of what it leads to, anything else by none.
pub proof fn a_directory_is_as_large_as_its_contents(entries: Seq<Entry>, e: Entry, bytes: u64)
    ensures
        tree_size(Seq::empty()) == 0,
        tree_size(seq![e] + entries) == entry_size(e) + tree_size(entries),
        entry_size(Entry::File(bytes)) == bytes,
        entry_size(Entry::Link(Some(bytes))) == bytes,
        entry_size(Entry::Link(None)) == 0,
        entry_size(Entry::Other) == 0,
        e is Directory ==> entry_size(e) == tree_size(e->Directory_0@),
{
    let all = seq![e] + entries;
    assert(all.subrange(1, all.len() as int) =~= entries);
}

} // verus!
