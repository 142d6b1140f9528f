//! The directory lister: the root that is open, and the entries directly
//! under it as one reading of the directory gave them.

use crate::explorer::path::text_of;
use crate::explorer::selection::texts;
use vstd::prelude::*;

verus! {

/// What reading a directory gave, entry by entry: the path of an entry, or
/// `None` for an entry that could not be read.
pub open spec fn entry_texts(entries: Seq<Option<String>>) -> Seq<Option<Seq<char>>> {
    entries.map_values(|entry: Option<String>| text_of(entry))
}

/// What an attempt to read a directory gave: `None` where the directory
/// could not be opened, else its entries.
pub open spec fn listing_of(listing: Option<Vec<Option<String>>>) -> Option<
    Seq<Option<Seq<char>>>,
> {
    match listing {
        Some(entries) => Some(entry_texts(entries@)),
        None => None,
    }
}

/// Keeps an entry that could be read and drops one that could not.
pub open spec fn if_read() -> spec_fn(Option<Seq<char>>) -> Option<Seq<char>> {
    |entry: Option<Seq<char>>| entry
}

/// The entries that could be read, in the order in which they came.
pub open spec fn readable(entries: Seq<Option<Seq<char>>>) -> Seq<Seq<char>> {
    entries.filter_map(if_read())
}

/// The files under `root`: nothing where no root is open or the directory
/// could not be opened, else the entries that could be read. Failure and an
/// empty directory look the same.
pub open spec fn listed(root: Option<Seq<char>>, listing: Option<Seq<Option<Seq<char>>>>) -> Seq<
    Seq<char>,
> {
    match (root, listing) {
        (Some(_), Some(entries)) => readable(entries),
        _ => Seq::empty(),
    }
}

/// Whether two optional paths are the same text.
pub fn same_path(left: &Option<String>, right: &Option<String>) -> (same: bool)
    ensures
        same == (text_of(*left) == text_of(*right)),
{
    match (left, right) {
        (Some(a), Some(b)) => *a == *b,
        (None, None) => true,
        _ => false,
    }
}

/// Holds the root directory that is open, if any. It keeps no list of
/// files: each listing is read anew.
#[derive(Debug)]
pub struct Explorer {
    path: Option<String>,
}

impl Explorer {
    /// The root that is open, as text.
    pub closed spec fn root(&self) -> Option<Seq<char>> {
        text_of(self.path)
    }

    /// An explorer on `path`.
    pub fn new(path: Option<String>) -> (explorer: Self)
        ensures
            explorer.root() == text_of(path),
    {
        Self { path }
    }

    /// Opens `path` in place of the root that was open.
    pub fn update(&mut self, path: Option<String>)
        ensures
            final(self).root() == text_of(path),
    {
        self.path = path;
    }

    /// The root that is open.
    pub fn path(&self) -> (path: &Option<String>)
        ensures
            text_of(*path) == self.root(),
    {
        &self.path
    }

    /// The files directly under the root, given what reading the root
    /// directory gave (`None` where it could not be opened, and where there
    /// was no root to read).
    pub fn files(&self, listing: &Option<Vec<Option<String>>>) -> (files: Vec<String>)
        ensures
            texts(files@) == listed(self.root(), listing_of(*listing)),
            self.root() is None ==> files@.len() == 0,
            listing is None ==> files@.len() == 0,
            listing matches Some(entries) ==> files@.len() <= entries@.len(),
    {
        let mut files: Vec<String> = Vec::new();
        if self.path.is_none() {
            assert(texts(files@) =~= Seq::<Seq<char>>::empty());
            return files;
        }
        match listing {
            None => {
                assert(texts(files@) =~= Seq::<Seq<char>>::empty());
            },
            Some(entries) => {
                let ghost all = entry_texts(entries@);
                let mut i: usize = 0;
                assert(texts(files@) =~= readable(all.take(0)));
                while i < entries.len()
                    invariant
                        i <= entries.len(),
                        all == entry_texts(entries@),
                        texts(files@) == readable(all.take(i as int)),
                    decreases entries.len() - i,
                {
                    let ghost before = files@;
                    proof {
                        all.lemma_filter_map_take_succ(if_read(), i as int);
                    }
                    match &entries[i] {
                        Some(path) => {
                            files.push(path.clone());
                            assert(texts(files@) =~= texts(before).push(path@));
                        },
                        None => {},
                    }
                    i += 1;
                }
                assert(all.take(i as int) =~= all);
                proof {
                    lemma_readable_len(all);
                }
            },
        }
        files
    }
}

/// Where every entry could be read, the files are the entries, one for one
/// and in the same order.
pub proof fn lemma_all_readable(entries: Seq<Option<Seq<char>>>)
    requires
        forall|i: int| 0 <= i < entries.len() ==> (#[trigger] entries[i]) is Some,
    ensures
        readable(entries).len() == entries.len(),
        forall|i: int| 0 <= i < entries.len() ==> Some(#[trigger] readable(entries)[i]) == entries[i],
    decreases entries.len(),
{
    if entries.len() > 0 {
        let front = entries.drop_last();
        lemma_all_readable(front);
        assert(readable(entries) =~= readable(front).push(entries.last()->0));
    }
}

/// The files are never more than the entries read.
pub proof fn lemma_readable_len(entries: Seq<Option<Seq<char>>>)
    ensures
        readable(entries).len() <= entries.len(),
    decreases entries.len(),
{
    if entries.len() > 0 {
        lemma_readable_len(entries.drop_last());
    }
}

/// With no root, and with a root that could not be opened, nothing is
/// listed: the two cannot be told apart.
pub proof fn lemma_nothing_to_list(
    root: Option<Seq<char>>,
    entries: Option<Seq<Option<Seq<char>>>>,
)
    ensures
        listed(None, entries) == Seq::<Seq<char>>::empty(),
        listed(root, None) == Seq::<Seq<char>>::empty(),
{
}

} // verus!
