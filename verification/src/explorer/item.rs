//! One entry of the explorer: its name, its kind, whether it is selected,
//! and what a row that shows it does with the pointer.

use crate::explorer::path::{
    extension, extension_of, file_name, file_name_of, lemma_extension_of_dotted,
    path_extension_of, text_of,
};
use vstd::prelude::*;

verus! {

/// Why a path cannot become an entry.
#[derive(Clone, Copy, Debug, PartialEq, Eq, Structural)]
pub enum ExplorerItemError {
    /// The path has no final component to show as a name.
    WrongFileName,
}

impl ExplorerItemError {
    /// The error in words.
    pub fn message(&self) -> (text: &'static str)
        ensures
            text@ == "File name is incorrect!"@,
    {
        match self {
            ExplorerItemError::WrongFileName => "File name is incorrect!",
        }
    }
}

/// The kind of an entry.
#[derive(Clone, Copy, Debug, PartialEq, Eq, Structural)]
pub enum ExplorerItemType {
    /// A directory, whatever its name.
    Directory,
    /// A file with the extension of a project descriptor.
    PackwizFile,
    /// Any other file.
    UnknownFile,
}

/// How a row looks in one draw.
#[derive(Clone, Copy, Debug, PartialEq, Eq, Structural)]
pub enum VisualState {
    /// Neither selected nor under the pointer: no fill.
    Idle,
    /// Under the pointer and not selected.
    Hovered,
    /// Selected, under the pointer or not.
    Selected,
}

impl VisualState {
    /// Whether the row gets the highlight fill: a hovered row and a selected
    /// row get the same one.
    pub fn highlighted(&self) -> (fill: bool)
        ensures
            fill == (*self != VisualState::Idle),
    {
        match self {
            VisualState::Idle => false,
            VisualState::Hovered => true,
            VisualState::Selected => true,
        }
    }
}

/// The one extension that marks a project descriptor.
pub open spec fn recognized_extension() -> Seq<char> {
    seq!['t', 'o', 'm', 'l']
}

/// The kind of an entry, from whether it is a directory and the extension of
/// its name. The directory test comes first; the extension must match
/// character for character.
pub open spec fn kind_for(is_dir: bool, extension: Option<Seq<char>>) -> ExplorerItemType {
    if is_dir {
        ExplorerItemType::Directory
    } else if extension == Some(recognized_extension()) {
        ExplorerItemType::PackwizFile
    } else {
        ExplorerItemType::UnknownFile
    }
}

/// An entry as plain values.
pub struct ItemView {
    pub selected: bool,
    pub name: Seq<char>,
    pub path: Seq<char>,
    pub kind: ExplorerItemType,
}

/// The entry that a path makes, given its final component and its
/// extension; an error where it has no final component.
pub open spec fn classify(
    path: Seq<char>,
    file_name: Option<Seq<char>>,
    extension: Option<Seq<char>>,
    is_dir: bool,
    selected: bool,
) -> Result<ItemView, ExplorerItemError> {
    match file_name {
        None => Err(ExplorerItemError::WrongFileName),
        Some(name) => Ok(ItemView { selected, name, path, kind: kind_for(is_dir, extension) }),
    }
}

/// The click that a row reports: the path of its entry, and only where the
/// pointer was released on a row that was not selected.
pub open spec fn click_of(item: ItemView, clicked: bool) -> Option<Seq<char>> {
    if clicked && !item.selected {
        Some(item.path)
    } else {
        None
    }
}

/// The look of a row: selection wins over the pointer.
pub open spec fn state_of(item: ItemView, hovered: bool) -> VisualState {
    if item.selected {
        VisualState::Selected
    } else if hovered {
        VisualState::Hovered
    } else {
        VisualState::Idle
    }
}

/// One entry of the explorer, made anew for each draw.
#[derive(Debug)]
pub struct ExplorerItem {
    selected: bool,
    item_name: String,
    item_path: String,
    item_type: ExplorerItemType,
}

impl View for ExplorerItem {
    type V = ItemView;

    closed spec fn view(&self) -> ItemView {
        ItemView {
            selected: self.selected,
            name: self.item_name@,
            path: self.item_path@,
            kind: self.item_type,
        }
    }
}

/// What making an entry gave, as plain values.
pub open spec fn outcome(made: Result<ExplorerItem, ExplorerItemError>) -> Result<
    ItemView,
    ExplorerItemError,
> {
    match made {
        Ok(item) => Ok(item@),
        Err(error) => Err(error),
    }
}

/// Whether `extension` is the recognized one.
pub fn is_recognized(extension: &String) -> (known: bool)
    ensures
        known == (extension@ == recognized_extension()),
{
    let recognized = "toml".to_owned();
    proof {
        reveal_strlit("toml");
        assert(recognized@ =~= recognized_extension());
    }
    *extension == recognized
}

impl ExplorerItem {
    /// The entry for `item_path`. `is_dir` says whether the path names a
    /// directory. Fails exactly where the path has no final component.
    pub fn new(item_path: String, is_dir: bool, selected: bool) -> (made: Result<
        Self,
        ExplorerItemError,
    >)
        ensures
            outcome(made) == classify(
                item_path@,
                file_name_of(item_path@),
                path_extension_of(item_path@),
                is_dir,
                selected,
            ),
            made is Err <==> file_name_of(item_path@) is None,
            made matches Ok(item) ==> (is_dir ==> item@.kind == ExplorerItemType::Directory),
            made matches Ok(item) ==> (!is_dir ==> (item@.kind == ExplorerItemType::PackwizFile
                <==> path_extension_of(item_path@) == Some(recognized_extension()))),
            made matches Ok(item) ==> (!is_dir ==> (item@.kind == ExplorerItemType::UnknownFile
                <==> path_extension_of(item_path@) != Some(recognized_extension()))),
    {
        let name = file_name(item_path.as_str());
        let ext = extension(item_path.as_str());
        Self::from_parts(item_path, name, ext, is_dir, selected)
    }

    /// The entry for `item_path`, given its final component and its
    /// extension as they were found. Fails exactly where `file_name` is
    /// `None`.
    pub fn from_parts(
        item_path: String,
        file_name: Option<String>,
        extension: Option<String>,
        is_dir: bool,
        selected: bool,
    ) -> (made: Result<Self, ExplorerItemError>)
        ensures
            outcome(made) == classify(
                item_path@,
                text_of(file_name),
                text_of(extension),
                is_dir,
                selected,
            ),
    {
        let item_name = match file_name {
            Some(name) => name,
            None => {
                return Err(ExplorerItemError::WrongFileName);
            },
        };
        let item_type = if is_dir {
            ExplorerItemType::Directory
        } else {
            let recognized = match &extension {
                Some(ext) => is_recognized(ext),
                None => false,
            };
            if recognized {
                ExplorerItemType::PackwizFile
            } else {
                ExplorerItemType::UnknownFile
            }
        };
        Ok(ExplorerItem { selected, item_name, item_path, item_type })
    }

    /// The label of the row: the final component of the path.
    pub fn name(&self) -> (name: &str)
        ensures
            name@ == self@.name,
    {
        self.item_name.as_str()
    }

    /// The path of the entry.
    pub fn path(&self) -> (path: &str)
        ensures
            path@ == self@.path,
    {
        self.item_path.as_str()
    }

    /// The kind of the entry.
    pub fn kind(&self) -> (kind: ExplorerItemType)
        ensures
            kind == self@.kind,
    {
        self.item_type
    }

    /// Whether the entry was selected when it was made.
    pub fn is_selected(&self) -> (selected: bool)
        ensures
            selected == self@.selected,
    {
        self.selected
    }

    /// How the row looks in this draw, given whether the pointer is over it.
    pub fn visual_state(&self, hovered: bool) -> (state: VisualState)
        ensures
            state == state_of(self@, hovered),
    {
        if self.selected {
            VisualState::Selected
        } else if hovered {
            VisualState::Hovered
        } else {
            VisualState::Idle
        }
    }

    /// The click that the row reports upward, given whether the pointer was
    /// released on it: the path of the entry if it was not selected, nothing
    /// otherwise.
    pub fn click_event(&self, clicked: bool) -> (event: Option<String>)
        ensures
            text_of(event) == click_of(self@, clicked),
    {
        if clicked && !self.selected {
            Some(self.item_path.clone())
        } else {
            None
        }
    }
}

/// A directory is a `Directory` whatever its name, also where the name ends
/// in the recognized extension.
pub proof fn lemma_directory_first(extension: Option<Seq<char>>)
    ensures
        kind_for(true, extension) == ExplorerItemType::Directory,
{
}

/// A file whose name is a stem that is not empty followed by `.toml` is a
/// `PackwizFile`.
pub proof fn lemma_descriptor_name_is_recognized(stem: Seq<char>)
    requires
        stem.len() > 0,
    ensures
        kind_for(false, extension_of(stem + seq!['.'] + recognized_extension()))
            == ExplorerItemType::PackwizFile,
{
    lemma_extension_of_dotted(stem, recognized_extension());
}

/// A path whose final component is a stem that is not empty followed by
/// `.toml` makes an entry: a `Directory` if it names a directory, a
/// `PackwizFile` if it does not.
pub proof fn lemma_descriptor_path(path: Seq<char>, stem: Seq<char>, is_dir: bool, selected: bool)
    requires
        stem.len() > 0,
        file_name_of(path) == Some(stem + seq!['.'] + recognized_extension()),
    ensures
        classify(path, file_name_of(path), path_extension_of(path), is_dir, selected) == Ok::<
            ItemView,
            ExplorerItemError,
        >(
            ItemView {
                selected,
                name: stem + seq!['.'] + recognized_extension(),
                path,
                kind: if is_dir {
                    ExplorerItemType::Directory
                } else {
                    ExplorerItemType::PackwizFile
                },
            },
        ),
{
    lemma_extension_of_dotted(stem, recognized_extension());
}

/// A file is a `PackwizFile` only with exactly the recognized extension: any
/// other extension, one that differs in case too, and no extension give
/// `UnknownFile`.
pub proof fn lemma_other_files_are_unknown(extension: Option<Seq<char>>)
    requires
        extension != Some(recognized_extension()),
    ensures
        kind_for(false, extension) == ExplorerItemType::UnknownFile,
{
}

} // verus!
