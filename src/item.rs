use vstd::prelude::*;

verus! {

/// One entry of a result list. The title is shown to the user and is the
/// identity used for usage ranking; the metadata is opaque to the host and is
/// handed back to the plugin on activation.
#[derive(Debug, Clone)]
pub struct ListItem {
    pub title: String,
    pub icon: Option<String>,
    pub description: String,
    pub metadata: String,
}

impl ListItem {
    /// An item with the given title, no icon, and empty description and metadata.
    pub fn new(title: String) -> (r: ListItem)
        ensures
            r.title@ == title@,
            r.icon.is_none(),
            r.description@.len() == 0,
            r.metadata@.len() == 0,
    {
        ListItem { title, icon: None, description: String::new(), metadata: String::new() }
    }

    pub fn with_description(self, desc: String) -> (r: ListItem)
        ensures
            r.description@ == desc@,
            r.title@ == self.title@,
            r.icon == self.icon,
            r.metadata@ == self.metadata@,
    {
        let mut item = self;
        item.description = desc;
        item
    }

    pub fn with_metadata(self, meta: String) -> (r: ListItem)
        ensures
            r.metadata@ == meta@,
            r.title@ == self.title@,
            r.icon == self.icon,
            r.description@ == self.description@,
    {
        let mut item = self;
        item.metadata = meta;
        item
    }

    pub fn with_icon(self, icon: Option<String>) -> (r: ListItem)
        ensures
            r.icon == icon,
            r.title@ == self.title@,
            r.description@ == self.description@,
            r.metadata@ == self.metadata@,
    {
        let mut item = self;
        item.icon = icon;
        item
    }
}

/// The largest cursor position; a cursor there sits after the last character
/// whatever the length of the text.
pub const SELECTION_MAX: u16 = 0xffff;

/// A cursor or selection over the query text, as a pair of character positions.
#[derive(Debug, Clone, Copy, PartialEq, Eq)]
pub struct SelectionRange {
    pub lower_bound: u16,
    pub upper_bound: u16,
}

impl SelectionRange {
    /// Sets both the start and end bound to the provided index.
    pub fn at(index: u16) -> (r: SelectionRange)
        ensures
            r.lower_bound == index,
            r.upper_bound == index,
    {
        SelectionRange { lower_bound: index, upper_bound: index }
    }

    /// Selects the entire query.
    pub fn all() -> (r: SelectionRange)
        ensures
            r.lower_bound == 0,
            r.upper_bound == SELECTION_MAX,
    {
        SelectionRange { lower_bound: 0, upper_bound: SELECTION_MAX }
    }

    /// A cursor before the first character.
    pub fn start() -> (r: SelectionRange)
        ensures
            r.lower_bound == 0,
            r.upper_bound == 0,
    {
        SelectionRange::at(0)
    }

    /// A cursor after the last character.
    pub fn end() -> (r: SelectionRange)
        ensures
            r.lower_bound == SELECTION_MAX,
            r.upper_bound == SELECTION_MAX,
    {
        SelectionRange::at(SELECTION_MAX)
    }
}

/// The launcher's text field: the query and the selection over it, with the
/// bounds widened to the width used on the wire.
#[derive(Debug, Clone)]
pub struct Input {
    pub query: String,
    pub range_lb: u32,
    pub range_ub: u32,
}

impl Input {
    /// Sets the input to the provided query and with the cursor placed
    /// at the end.
    pub fn new(query: String) -> (r: Input)
        ensures
            r.query@ == query@,
            r.range_lb == SELECTION_MAX as u32,
            r.range_ub == SELECTION_MAX as u32,
    {
        let range = SelectionRange::end();
        Input { query, range_lb: range.lower_bound as u32, range_ub: range.upper_bound as u32 }
    }

    /// Replaces the selection, keeping the query.
    ///
    /// Both bounds of `sel` are kept: a lower bound of 2 and an upper bound
    /// of 5 select the characters from 2 up to 5. (Copying the lower bound
    /// into both ends would turn every selection into a bare cursor.)
    pub fn select(self, sel: SelectionRange) -> (r: Input)
        ensures
            r.query@ == self.query@,
            r.range_lb == sel.lower_bound as u32,
            r.range_ub == sel.upper_bound as u32,
    {
        let mut input = self;
        input.range_lb = sel.lower_bound as u32;
        input.range_ub = sel.upper_bound as u32;
        input
    }
}

/// What a plugin asks the host to do once one of its items is activated.
#[derive(Debug, Clone)]
pub enum Action {
    Close,
    RunCommand(String, Vec<String>),
    RunShell(String),
    Copy(String),
    SetInput(Input),
}

} // verus!
