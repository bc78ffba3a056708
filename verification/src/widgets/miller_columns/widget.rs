//! The columns to show for a cache, and what each item reports when clicked.
//!
//! [`MillerColumns::build`] turns the cache into one [`ColumnView`] per shown
//! column. Drawing them is left to the host's toolkit.

use super::item::{is_copy_of, ItemId, MillerItem};
use super::message::MillerMessage;
use super::state::{path_ids, state_of, ColumnState, MillerState, SelectionPath};
use vstd::prelude::*;

verus! {

/// One row of a column.
pub struct ItemView<'a, D: Clone> {
    /// The item shown.
    pub item: &'a MillerItem<D>,
    /// Whether the item is the one selected in its column.
    pub is_selected: bool,
    /// Reported when the pointer is pressed on the row.
    pub on_press: MillerMessage<D>,
    /// Reported when the pointer is released on the row, for leaves.
    pub on_release: Option<MillerMessage<D>>,
}

/// What one column shows.
pub enum ColumnView<'a, D: Clone> {
    /// The rows of a column that has items.
    Items(Vec<ItemView<'a, D>>),
    /// The placeholder of a column without items.
    Empty,
    /// The placeholder of a column whose items are awaited.
    Loading,
    /// The placeholder of a column whose items could not be fetched, with
    /// the failure message.
    Error(&'a str),
}

/// `message` selects a copy of `item` in column `column`, under the path `path`.
pub open spec fn is_select_of<D: Clone>(
    message: MillerMessage<D>,
    column: nat,
    path: Seq<Seq<char>>,
    item: MillerItem<D>,
) -> bool {
    match message {
        MillerMessage::Select { column: c, path: p, item: copy } => {
            &&& c == column
            &&& path_ids(p@) == path
            &&& is_copy_of(copy, item)
        },
        _ => false,
    }
}

/// `message` activates a copy of `item`, under the path `path`.
pub open spec fn is_activate_of<D: Clone>(
    message: MillerMessage<D>,
    path: Seq<Seq<char>>,
    item: MillerItem<D>,
) -> bool {
    match message {
        MillerMessage::Activate { path: p, item: copy } => {
            &&& path_ids(p@) == path
            &&& is_copy_of(copy, item)
        },
        _ => false,
    }
}

/// `row` is the row of `item` in column `column`, where `path` is the
/// selection. Its path is the selection down to the column, then the item's
/// id. Pressing selects the item; releasing activates it if it is a leaf, and
/// reports nothing if it is a branch.
pub open spec fn is_row_of<D: Clone>(
    row: ItemView<D>,
    item: MillerItem<D>,
    column: nat,
    path: Seq<Seq<char>>,
) -> bool {
    &&& *row.item == item
    &&& row.is_selected == (column < path.len() && path[column as int] == item.id@)
    &&& is_select_of(row.on_press, column, path.take(column as int).push(item.id@), item)
    &&& match row.on_release {
        Some(message) => !item.is_branch() && is_activate_of(
            message,
            path.take(column as int).push(item.id@),
            item,
        ),
        None => item.is_branch(),
    }
}

/// `view` shows `items` as column `column`: the empty placeholder if there
/// are none, else one row per item, in order.
pub open spec fn shows_items<D: Clone>(
    view: ColumnView<D>,
    items: Seq<MillerItem<D>>,
    column: nat,
    path: Seq<Seq<char>>,
) -> bool {
    if items.len() == 0 {
        view is Empty
    } else {
        match view {
            ColumnView::Items(rows) => {
                &&& rows@.len() == items.len()
                &&& forall|i: int|
                    0 <= i < items.len() ==> is_row_of(#[trigger] rows@[i], items[i], column, path)
            },
            _ => false,
        }
    }
}

/// `view` is what column `column` shows: the roots for column 0; for a later
/// column what is recorded for the item selected in the column before it: its
/// loaded children, the failure message, or the loading placeholder while
/// nothing or a fetch in progress is recorded.
pub open spec fn shows_column<D: Clone>(
    view: ColumnView<D>,
    roots: Seq<MillerItem<D>>,
    cache: Map<Seq<char>, ColumnState<D>>,
    path: Seq<Seq<char>>,
    column: nat,
) -> bool
    recommends
        column <= path.len(),
{
    if column == 0 {
        shows_items(view, roots, column, path)
    } else {
        match state_of(cache, path[column - 1]) {
            ColumnState::NotLoaded => view is Loading,
            ColumnState::Loading => view is Loading,
            ColumnState::Loaded(children) => shows_items(view, children@, column, path),
            ColumnState::Error(message) => match view {
                ColumnView::Error(text) => text@ == message@,
                _ => false,
            },
        }
    }
}

/// The first column shown when `visible` columns are to be shown and at most
/// `max_columns` of them fit: the earlier columns are left out.
pub open spec fn window_start(visible: nat, max_columns: Option<usize>) -> nat {
    match max_columns {
        Some(max) => if visible > max {
            (visible - max) as nat
        } else {
            0
        },
        None => 0,
    }
}

/// The first `n` ids of `path`, copied.
fn path_prefix(path: &SelectionPath, n: usize) -> (prefix: SelectionPath)
    requires
        n <= path.len(),
    ensures
        prefix@ == path@.take(n as int),
{
    let mut prefix: SelectionPath = Vec::new();
    let mut i: usize = 0;
    while i < n
        invariant
            i <= n <= path.len(),
            prefix@ == path@.take(i as int),
        decreases n - i,
    {
        prefix.push(path[i].clone());
        assert(prefix@ =~= path@.take(i + 1));
        i += 1;
    }
    prefix
}

/// The path's ids, then `id`, copied.
fn path_with(parent_path: &SelectionPath, id: &ItemId) -> (path: SelectionPath)
    ensures
        path@ == parent_path@.push(*id),
{
    let mut path = path_prefix(parent_path, parent_path.len());
    assert(path@ =~= parent_path@);
    path.push(id.clone());
    path
}

/// The layout of the columns over a cache: which columns are shown and
/// what each of them holds.
#[verifier::reject_recursive_types(D)]
pub struct MillerColumns<'a, D> {
    /// The cache, owned by the host.
    pub state: &'a MillerState<D>,
    /// The least width of a column, in pixels.
    pub min_column_width: u16,
    /// The most columns shown at once, if limited.
    pub max_columns: Option<usize>,
    /// The space between two columns.
    pub spacing: u16,
}

impl<'a, D: Clone> MillerColumns<'a, D> {
    /// The columns over `state`, with a least column width of 150, a spacing
    /// of 4 and no limit on the number of columns.
    pub fn new(state: &'a MillerState<D>) -> (columns: Self)
        ensures
            columns.state == state,
            columns.min_column_width == 150,
            columns.max_columns is None,
            columns.spacing == 4,
    {
        MillerColumns { state, min_column_width: 150, max_columns: None, spacing: 4 }
    }

    /// Sets the least width of a column, in pixels.
    pub fn min_column_width(self, width: u16) -> (columns: Self)
        ensures
            columns.min_column_width == width,
            columns.state == self.state,
            columns.max_columns == self.max_columns,
            columns.spacing == self.spacing,
    {
        MillerColumns { min_column_width: width, ..self }
    }

    /// Limits the number of columns shown at once. When more are visible, the
    /// first ones are left out of the view.
    pub fn max_columns(self, max: usize) -> (columns: Self)
        ensures
            columns.max_columns == Some(max),
            columns.state == self.state,
            columns.min_column_width == self.min_column_width,
            columns.spacing == self.spacing,
    {
        MillerColumns { max_columns: Some(max), ..self }
    }

    /// Sets the space between two columns.
    pub fn spacing(self, spacing: u16) -> (columns: Self)
        ensures
            columns.spacing == spacing,
            columns.state == self.state,
            columns.min_column_width == self.min_column_width,
            columns.max_columns == self.max_columns,
    {
        MillerColumns { spacing, ..self }
    }

    /// The number of the first column shown.
    pub fn first_column(&self) -> (first: usize)
        requires
            self.state.selection.len() < usize::MAX,
        ensures
            first == window_start(self.state.columns(), self.max_columns),
            first < self.state.columns() || self.max_columns == Some(0usize),
    {
        let visible_count: usize = self.state.visible_column_count();
        match self.max_columns {
            Some(max) => if visible_count > max {
                visible_count - max
            } else {
                0
            },
            None => 0,
        }
    }

    /// What to report for `item`, selected by `path`, where the host fetches
    /// on demand: its children are needed if it is a branch for which the
    /// cache records nothing yet. A leaf needs none, and a branch that is
    /// loading, loaded or failed is left to the host's own retry.
    pub fn need_children(&self, path: &SelectionPath, item: &MillerItem<D>) -> (message: Option<
        MillerMessage<D>,
    >)
        ensures
            match message {
                Some(MillerMessage::NeedChildren { parent_path, parent_id }) => {
                    &&& item.is_branch()
                    &&& !self.state.children@.contains_key(item.id@)
                    &&& parent_path@ == path@
                    &&& parent_id@ == item.id@
                },
                Some(_) => false,
                None => !item.is_branch() || self.state.children@.contains_key(item.id@),
            },
    {
        if item.is_branch() && !self.state.children.contains_key(item.id.as_str()) {
            let parent_path = path_prefix(path, path.len());
            assert(parent_path@ =~= path@);
            Some(MillerMessage::NeedChildren { parent_path, parent_id: item.id.clone() })
        } else {
            None
        }
    }

    /// The view of the column `column_index` that holds `items`.
    /// `parent_path` is the selection down to the column.
    fn render_column(
        &self,
        column_index: usize,
        items: &'a [MillerItem<D>],
        parent_path: &SelectionPath,
    ) -> (view: ColumnView<'a, D>)
        requires
            column_index <= self.state.selection.len(),
            parent_path@ == self.state.selection@.take(column_index as int),
        ensures
            shows_items(view, items@, column_index as nat, self.state.path()),
    {
        if items.len() == 0 {
            return ColumnView::Empty;
        }
        let selected_id = self.state.selected_at(column_index);
        let ghost path = self.state.path();
        let mut rows: Vec<ItemView<'a, D>> = Vec::new();
        let mut i: usize = 0;
        while i < items.len()
            invariant
                i <= items.len(),
                column_index <= self.state.selection.len(),
                parent_path@ == self.state.selection@.take(column_index as int),
                path == self.state.path(),
                match selected_id {
                    Some(found) => column_index < self.state.selection.len() && *found
                        == self.state.selection@[column_index as int],
                    None => column_index >= self.state.selection.len(),
                },
                rows@.len() == i,
                forall|k: int|
                    0 <= k < i ==> is_row_of(
                        #[trigger] rows@[k],
                        items@[k],
                        column_index as nat,
                        path,
                    ),
            decreases items.len() - i,
        {
            let item = &items[i];
            let is_selected = match selected_id {
                Some(id) => *id == item.id,
                None => false,
            };
            let item_path = path_with(parent_path, &item.id);
            assert(path_ids(item_path@) =~= path.take(column_index as int).push(item.id@));
            let on_release = if item.is_leaf() {
                let activate_path = path_with(parent_path, &item.id);
                assert(path_ids(activate_path@) =~= path.take(column_index as int).push(
                    item.id@,
                ));
                Some(MillerMessage::Activate { path: activate_path, item: item.clone() })
            } else {
                None
            };
            let on_press = MillerMessage::Select {
                column: column_index,
                path: item_path,
                item: item.clone(),
            };
            let row = ItemView { item, is_selected, on_press, on_release };
            assert(is_row_of(row, items@[i as int], column_index as nat, path));
            rows.push(row);
            i += 1;
        }
        ColumnView::Items(rows)
    }

    /// The columns to show, from the first shown column to the last visible
    /// one. Nothing is reported but selections and, for leaves, activations.
    pub fn build(&self) -> (views: Vec<ColumnView<'a, D>>)
        requires
            self.state.selection.len() < usize::MAX,
        ensures
            views@.len() == self.state.columns() - window_start(
                self.state.columns(),
                self.max_columns,
            ),
            forall|j: int|
                #![trigger views@[j]]
                0 <= j < views@.len() ==> shows_column(
                    views@[j],
                    self.state.roots@,
                    self.state.children@,
                    self.state.path(),
                    (window_start(self.state.columns(), self.max_columns) + j) as nat,
                ),
    {
        let visible_count: usize = self.state.visible_column_count();
        let start_column: usize = self.first_column();
        let state: &'a MillerState<D> = self.state;
        let mut views: Vec<ColumnView<'a, D>> = Vec::new();
        if start_column >= visible_count {
            return views;
        }
        let mut current_path: SelectionPath = path_prefix(&state.selection, start_column);
        let mut col: usize = start_column;
        while col < visible_count
            invariant
                state == self.state,
                start_column <= col <= visible_count <= state.selection.len() + 1,
                state.selection.len() < usize::MAX,
                col <= state.selection.len() ==> current_path@ == state.selection@.take(
                    col as int,
                ),
                views@.len() == col - start_column,
                forall|j: int|
                    #![trigger views@[j]]
                    0 <= j < views@.len() ==> shows_column(
                        views@[j],
                        state.roots@,
                        state.children@,
                        state.path(),
                        (start_column + j) as nat,
                    ),
            decreases visible_count - col,
        {
            let view = if col == 0 {
                self.render_column(0, state.roots.as_slice(), &current_path)
            } else {
                let parent_id = &state.selection[col - 1];
                assert(state.path()[col - 1] == parent_id@);
                match state.get_column_state(parent_id) {
                    ColumnState::NotLoaded => ColumnView::Loading,
                    ColumnState::Loading => ColumnView::Loading,
                    ColumnState::Loaded(children) => self.render_column(
                        col,
                        children.as_slice(),
                        &current_path,
                    ),
                    ColumnState::Error(error) => ColumnView::Error(error.as_str()),
                }
            };
            views.push(view);
            if col < state.selection.len() {
                current_path.push(state.selection[col].clone());
                assert(current_path@ =~= state.selection@.take(col + 1));
            }
            col += 1;
        }
        views
    }
}

} // verus!
