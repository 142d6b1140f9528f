//! The selection: the paths the user has picked, each once, in the order in
//! which they were picked.

use vstd::prelude::*;

verus! {

/// The text of each path of a list, in the same order.
pub open spec fn texts(paths: Seq<String>) -> Seq<Seq<char>> {
    paths.map_values(|p: String| p@)
}

/// The selection after a click on `path`: an unselected path goes to the
/// end, a selected one changes nothing. A click never deselects.
pub open spec fn after_click(selection: Seq<Seq<char>>, path: Seq<char>) -> Seq<Seq<char>> {
    if selection.contains(path) {
        selection
    } else {
        selection.push(path)
    }
}

/// `path` stands at exactly one place of `selection`.
pub open spec fn holds_once(selection: Seq<Seq<char>>, path: Seq<char>) -> bool {
    exists|i: int|
        0 <= i < selection.len() && #[trigger] selection[i] == path && forall|j: int|
            0 <= j < selection.len() && #[trigger] selection[j] == path ==> j == i
}

/// An ordered set of selected paths. No path is held twice.
#[derive(Debug)]
pub struct Selection {
    paths: Vec<String>,
}

impl View for Selection {
    type V = Seq<Seq<char>>;

    closed spec fn view(&self) -> Seq<Seq<char>> {
        texts(self.paths@)
    }
}

impl Selection {
    /// No path is held twice. This holds of every selection.
    #[verifier::type_invariant]
    pub open spec fn distinct(self) -> bool {
        self@.no_duplicates()
    }

    /// The empty selection.
    pub fn new() -> (selection: Self)
        ensures
            selection@ == Seq::<Seq<char>>::empty(),
    {
        let selection = Selection { paths: Vec::new() };
        assert(texts(selection.paths@) =~= Seq::<Seq<char>>::empty());
        selection
    }

    /// How many paths are selected.
    pub fn len(&self) -> (n: usize)
        ensures
            n == self@.len(),
    {
        self.paths.len()
    }

    /// Whether nothing is selected.
    pub fn is_empty(&self) -> (empty: bool)
        ensures
            empty == (self@.len() == 0),
    {
        self.paths.len() == 0
    }

    /// The selected paths, first picked first.
    pub fn paths(&self) -> (paths: &Vec<String>)
        ensures
            texts(paths@) == self@,
            self@.no_duplicates(),
    {
        proof {
            use_type_invariant(self);
        }
        &self.paths
    }

    /// Whether `path` is selected.
    pub fn contains(&self, path: &String) -> (found: bool)
        ensures
            found == self@.contains(path@),
    {
        let mut i: usize = 0;
        while i < self.paths.len()
            invariant
                i <= self.paths.len(),
                forall|j: int| 0 <= j < i ==> texts(self.paths@)[j] != path@,
            decreases self.paths.len() - i,
        {
            if self.paths[i] == *path {
                assert(texts(self.paths@)[i as int] == path@);
                return true;
            }
            i += 1;
        }
        false
    }

    /// A click on `path`: selects it if it was not selected, and says whether
    /// it did. A path that is already selected stays where it is.
    pub fn toggle_or_add(&mut self, path: String) -> (added: bool)
        ensures
            final(self)@ == after_click(old(self)@, path@),
            added == !old(self)@.contains(path@),
            final(self)@.no_duplicates(),
    {
        proof {
            use_type_invariant(&*self);
        }
        if self.contains(&path) {
            false
        } else {
            // The list grows outside the selection, which so stays distinct
            // at every step.
            let ghost before = self.paths@;
            let mut paths: Vec<String> = Vec::new();
            proof {
                assert(texts(paths@) =~= Seq::<Seq<char>>::empty());
            }
            core::mem::swap(&mut self.paths, &mut paths);
            paths.push(path);
            proof {
                assert(texts(paths@) =~= texts(before).push(path@));
                lemma_click_keeps_distinct(texts(before), path@);
            }
            self.paths = paths;
            true
        }
    }

    /// Drops every selected path.
    pub fn clear(&mut self)
        ensures
            final(self)@ == Seq::<Seq<char>>::empty(),
    {
        self.paths = Vec::new();
        assert(texts(self.paths@) =~= Seq::<Seq<char>>::empty());
    }
}

/// A click keeps every path of the selection single.
pub proof fn lemma_click_keeps_distinct(selection: Seq<Seq<char>>, path: Seq<char>)
    requires
        selection.no_duplicates(),
    ensures
        after_click(selection, path).no_duplicates(),
{
}

/// A click never removes or moves a path: what was selected keeps its
/// place, and the clicked path is selected afterwards.
pub proof fn lemma_click_only_adds(selection: Seq<Seq<char>>, path: Seq<char>)
    ensures
        selection.len() <= after_click(selection, path).len() <= selection.len() + 1,
        forall|i: int|
            0 <= i < selection.len() ==> #[trigger] after_click(selection, path)[i]
                == selection[i],
        after_click(selection, path).contains(path),
{
    let after = after_click(selection, path);
    if !selection.contains(path) {
        assert(after[selection.len() as int] == path);
    }
}

/// The add-only law: after two clicks on the same path the selection holds
/// it exactly once, and the second click changed nothing.
pub proof fn lemma_second_click_changes_nothing(selection: Seq<Seq<char>>, path: Seq<char>)
    requires
        selection.no_duplicates(),
    ensures
        after_click(after_click(selection, path), path) == after_click(selection, path),
        holds_once(after_click(after_click(selection, path), path), path),
{
    let once = after_click(selection, path);
    lemma_click_only_adds(selection, path);
    lemma_click_keeps_distinct(selection, path);
    let i = choose|i: int| 0 <= i < once.len() && once[i] == path;
    assert(0 <= i < once.len() && once[i] == path);
    assert forall|j: int| 0 <= j < once.len() && #[trigger] once[j] == path implies j == i by {
        if j != i {
            assert(once[i] != once[j]);
        }
    }
}

/// Insertion order: two different paths, neither selected before, end up
/// behind what was selected, the one clicked first in front of the other.
pub proof fn lemma_clicks_keep_order(selection: Seq<Seq<char>>, first: Seq<char>, second: Seq<char>)
    requires
        first != second,
        !selection.contains(first),
        !selection.contains(second),
    ensures
        after_click(after_click(selection, first), second) == selection + seq![first, second],
        selection.len() == 0 ==> after_click(after_click(selection, first), second) == seq![
            first,
            second,
        ],
{
    let one = after_click(selection, first);
    assert(one == selection.push(first));
    assert(!one.contains(second)) by {
        if one.contains(second) {
            let i = choose|i: int| 0 <= i < one.len() && one[i] == second;
            if i < selection.len() {
                assert(selection[i] == second);
            }
        }
    }
    assert(one.push(second) =~= selection + seq![first, second]);
    if selection.len() == 0 {
        assert(selection + seq![first, second] =~= seq![first, second]);
    }
}

} // verus!
