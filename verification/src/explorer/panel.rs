//! The explorer panel. Once per redraw it takes the root that the shell
//! holds, says what to show, makes the entry of each row and takes the
//! click that the row reports.

use crate::explorer::item::{
    classify, click_of, outcome, ExplorerItem, ExplorerItemError, ItemView,
};
use crate::explorer::lister::{listed, listing_of, same_path, Explorer};
use crate::explorer::path::{file_name_of, path_extension_of, text_of};
use crate::explorer::selection::{
    after_click, holds_once, lemma_second_click_changes_nothing, texts, Selection,
};
use vstd::prelude::*;

verus! {

/// What the panel shows in one redraw, as plain values.
pub enum ContentView {
    /// No root is open.
    NoProject,
    /// A root is open and nothing is listed under it.
    Empty,
    /// One row for each listed file.
    Rows(Seq<Seq<char>>),
}

/// What the panel shows for `root` and one reading of its directory. The
/// list is made from that reading alone.
pub open spec fn content_for(
    root: Option<Seq<char>>,
    listing: Option<Seq<Option<Seq<char>>>>,
) -> ContentView {
    if root is None {
        ContentView::NoProject
    } else if listed(root, listing).len() == 0 {
        ContentView::Empty
    } else {
        ContentView::Rows(listed(root, listing))
    }
}

/// The state of the panel as plain values: the root that is open, and the
/// selection made under it.
pub struct PanelModel {
    pub root: Option<Seq<char>>,
    pub selection: Seq<Seq<char>>,
}

impl PanelModel {
    /// The panel after it took the root that the shell holds. The same root
    /// changes nothing; another root is opened and the selection starts
    /// empty again.
    pub open spec fn sync_root(self, external: Option<Seq<char>>) -> PanelModel {
        if self.root == external {
            self
        } else {
            PanelModel { root: external, selection: Seq::empty() }
        }
    }

    /// What the panel shows for one reading of the root directory.
    pub open spec fn content(self, listing: Option<Seq<Option<Seq<char>>>>) -> ContentView {
        content_for(self.root, listing)
    }

    /// The panel after a row was drawn for `item`: the click that the row
    /// reports, if any, goes into the selection.
    pub open spec fn item_drawn(self, item: ItemView, clicked: bool) -> PanelModel {
        match click_of(item, clicked) {
            Some(path) => PanelModel {
                root: self.root,
                selection: after_click(self.selection, path),
            },
            None => self,
        }
    }

    /// The panel after a click on the row of `path`, an entry with the name
    /// `name`: the entry is made with the selection as it stands, drawn and
    /// clicked.
    pub open spec fn row_clicked(self, path: Seq<char>, name: Seq<char>) -> PanelModel {
        match classify(path, Some(name), None, false, self.selection.contains(path)) {
            Ok(item) => self.item_drawn(item, true),
            Err(_) => self,
        }
    }
}

/// What the panel shows in one redraw.
#[derive(Debug)]
pub enum PanelContent {
    /// No root is open: the panel shows the label that asks for a project.
    NoProject,
    /// Nothing is listed under the root: the panel shows the label for an
    /// empty directory.
    Empty,
    /// The files to draw, one row each, in this order.
    Rows(Vec<String>),
}

impl View for PanelContent {
    type V = ContentView;

    open spec fn view(&self) -> ContentView {
        match self {
            PanelContent::NoProject => ContentView::NoProject,
            PanelContent::Empty => ContentView::Empty,
            PanelContent::Rows(files) => ContentView::Rows(texts(files@)),
        }
    }
}

impl PanelContent {
    /// The fixed label that stands in place of the rows, if there are none.
    pub fn label(&self) -> (label: Option<&'static str>)
        ensures
            self@ is NoProject ==> (label matches Some(text) && text@ == "Open project!"@),
            self@ is Empty ==> (label matches Some(text) && text@ == "Empty"@),
            self@ is Rows ==> label is None,
    {
        match self {
            PanelContent::NoProject => Some("Open project!"),
            PanelContent::Empty => Some("Empty"),
            PanelContent::Rows(_) => None,
        }
    }
}

/// The explorer panel: the explorer with the root that is open, and the
/// selection made under that root.
#[derive(Debug)]
pub struct ExplorerTab {
    explorer: Explorer,
    selection: Selection,
}

impl View for ExplorerTab {
    type V = PanelModel;

    closed spec fn view(&self) -> PanelModel {
        PanelModel { root: self.explorer.root(), selection: self.selection@ }
    }
}

impl ExplorerTab {
    /// A panel on `path`, with nothing selected.
    pub fn new(path: Option<String>) -> (tab: Self)
        ensures
            tab@ == (PanelModel { root: text_of(path), selection: Seq::empty() }),
    {
        Self { explorer: Explorer::new(path), selection: Selection::new() }
    }

    /// The title of the panel.
    pub fn title(&self) -> (title: &'static str)
        ensures
            title@ == "Explorer"@,
    {
        "Explorer"
    }

    /// The explorer of the panel, which holds the root.
    pub fn explorer(&self) -> (explorer: &Explorer)
        ensures
            explorer.root() == self@.root,
    {
        &self.explorer
    }

    /// The selection of the panel.
    pub fn selection(&self) -> (selection: &Selection)
        ensures
            selection@ == self@.selection,
            self@.selection.no_duplicates(),
    {
        proof {
            use_type_invariant(&self.selection);
        }
        &self.selection
    }

    /// The first step of a redraw: takes the root that the shell holds and
    /// says whether it differs from the root that was open. A new root
    /// replaces the old one and empties the selection.
    pub fn sync_root(&mut self, external: Option<String>) -> (changed: bool)
        ensures
            final(self)@ == old(self)@.sync_root(text_of(external)),
            changed == (old(self)@.root != text_of(external)),
            final(self)@.root == text_of(external),
            final(self)@.selection.no_duplicates(),
    {
        proof {
            use_type_invariant(&self.selection);
        }
        if same_path(self.explorer.path(), &external) {
            false
        } else {
            self.explorer.update(external);
            self.selection.clear();
            true
        }
    }

    /// What to show in this redraw, given what reading the root directory
    /// gave (`None` where it could not be opened, and where no root is
    /// open).
    pub fn content(&self, listing: &Option<Vec<Option<String>>>) -> (content: PanelContent)
        ensures
            content@ == self@.content(listing_of(*listing)),
    {
        if self.explorer.path().is_none() {
            return PanelContent::NoProject;
        }
        let files = self.explorer.files(listing);
        if files.len() == 0 {
            PanelContent::Empty
        } else {
            PanelContent::Rows(files)
        }
    }

    /// The entry to draw for `file_path`, selected if the selection holds
    /// the path. `is_dir` says whether the path names a directory. An error
    /// means that the row is left out.
    pub fn create_item(&self, file_path: String, is_dir: bool) -> (made: Result<
        ExplorerItem,
        ExplorerItemError,
    >)
        ensures
            outcome(made) == classify(
                file_path@,
                file_name_of(file_path@),
                path_extension_of(file_path@),
                is_dir,
                self@.selection.contains(file_path@),
            ),
    {
        let selected = self.selection.contains(&file_path);
        ExplorerItem::new(file_path, is_dir, selected)
    }

    /// The last step for a row: `clicked` says whether the pointer was
    /// released on the row that was drawn for `item`. The click that the row
    /// reports goes into the selection; says whether a path was added.
    pub fn item_drawn(&mut self, item: &ExplorerItem, clicked: bool) -> (added: bool)
        ensures
            final(self)@ == old(self)@.item_drawn(item@, clicked),
            added == (final(self)@.selection.len() == old(self)@.selection.len() + 1),
            final(self)@.selection.no_duplicates(),
    {
        proof {
            use_type_invariant(&self.selection);
        }
        match item.click_event(clicked) {
            Some(path) => self.selection.toggle_or_add(path),
            None => false,
        }
    }
}

/// Root change: after the panel took another root, what it shows comes from
/// the new root and the reading of its directory alone, whatever root was
/// open and whatever was listed before; and the selection is empty.
pub proof fn lemma_root_change_relists(
    panel: PanelModel,
    external: Option<Seq<char>>,
    listing: Option<Seq<Option<Seq<char>>>>,
)
    ensures
        panel.sync_root(external).root == external,
        panel.sync_root(external).content(listing) == content_for(external, listing),
        panel.sync_root(external).content(listing) matches ContentView::Rows(files) ==> files
            == listed(external, listing),
        panel.root != external ==> panel.sync_root(external).selection == Seq::<
            Seq<char>,
        >::empty(),
        panel.root == external ==> panel.sync_root(external) == panel,
{
}

/// The add-only law on the click path: a click on the row of a path, and a
/// second click on its row in a later draw, leave the path selected exactly
/// once; the second click changes nothing.
pub proof fn lemma_row_clicked_twice(panel: PanelModel, path: Seq<char>, name: Seq<char>)
    requires
        panel.selection.no_duplicates(),
    ensures
        panel.row_clicked(path, name).selection == after_click(panel.selection, path),
        panel.row_clicked(path, name).row_clicked(path, name) == panel.row_clicked(path, name),
        holds_once(panel.row_clicked(path, name).row_clicked(path, name).selection, path),
{
    lemma_second_click_changes_nothing(panel.selection, path);
}

} // verus!
