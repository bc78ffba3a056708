//! The tree cache and the selection path.
//!
//! Everything the cache answers is defined from one notion, [`column_items`]:
//! the items of column `n` are the roots for `n == 0`, and otherwise the loaded
//! children of the branch that the selection names in column `n - 1`.

use super::item::{ItemId, MillerItem};
use vstd::hash_map::StringHashMap;
use vstd::prelude::*;

verus! {

/// The selected item's id in each column, from the root column down.
/// An empty path means that nothing is selected.
pub type SelectionPath = Vec<ItemId>;

/// What is known of the children of one parent item.
#[derive(Debug, Clone)]
pub enum ColumnState<D> {
    /// No fetch has been requested.
    NotLoaded,
    /// A fetch is outstanding.
    Loading,
    /// The children are present.
    Loaded(Vec<MillerItem<D>>),
    /// The last fetch failed, with this message.
    Error(String),
}

impl<D> Default for ColumnState<D> {
    fn default() -> (state: Self)
        ensures
            state is NotLoaded,
    {
        ColumnState::NotLoaded
    }
}

/// The items behind an optional slice.
pub open spec fn items_view<D>(items: Option<&[MillerItem<D>]>) -> Option<Seq<MillerItem<D>>> {
    match items {
        Some(slice) => Some(slice@),
        None => None,
    }
}

/// The characters behind an optional string slice.
pub open spec fn text_view(text: Option<&str>) -> Option<Seq<char>> {
    match text {
        Some(s) => Some(s@),
        None => None,
    }
}

impl<D> ColumnState<D> {
    /// The loaded children, if the state is `Loaded`.
    pub open spec fn loaded(&self) -> Option<Seq<MillerItem<D>>> {
        match self {
            ColumnState::Loaded(items) => Some(items@),
            _ => None,
        }
    }

    /// The failure message, if the state is `Error`.
    pub open spec fn failure(&self) -> Option<Seq<char>> {
        match self {
            ColumnState::Error(message) => Some(message@),
            _ => None,
        }
    }

    /// The host's fetch protocol lets this state be followed by `next`: a
    /// fetch may start from any state, and only a fetch that is under way ends,
    /// in the loaded children or in a failure. So a refetch always passes
    /// through `Loading`, and nothing goes back to `NotLoaded`.
    pub open spec fn allows(&self, next: &ColumnState<D>) -> bool {
        match next {
            ColumnState::NotLoaded => false,
            ColumnState::Loading => true,
            ColumnState::Loaded(_) => *self is Loading,
            ColumnState::Error(_) => *self is Loading,
        }
    }

    /// Whether the fetch protocol lets this state be followed by `next`.
    /// The cache itself takes any state at any time; this is for hosts that
    /// want to hold themselves to the protocol.
    pub fn may_become(&self, next: &ColumnState<D>) -> (b: bool)
        ensures
            b == self.allows(next),
    {
        match next {
            ColumnState::NotLoaded => false,
            ColumnState::Loading => true,
            _ => self.is_loading(),
        }
    }

    /// True while a fetch is outstanding.
    pub fn is_loading(&self) -> (b: bool)
        ensures
            b == (*self is Loading),
    {
        match self {
            ColumnState::Loading => true,
            _ => false,
        }
    }

    /// True if the children are present.
    pub fn is_loaded(&self) -> (b: bool)
        ensures
            b == (*self is Loaded),
    {
        match self {
            ColumnState::Loaded(_) => true,
            _ => false,
        }
    }

    /// True if the last fetch failed.
    pub fn is_error(&self) -> (b: bool)
        ensures
            b == (*self is Error),
    {
        match self {
            ColumnState::Error(_) => true,
            _ => false,
        }
    }

    /// The loaded children, if any.
    pub fn children(&self) -> (items: Option<&[MillerItem<D>]>)
        ensures
            items_view(items) == self.loaded(),
    {
        match self {
            ColumnState::Loaded(children) => Some(children.as_slice()),
            _ => None,
        }
    }

    /// The failure message, if any.
    pub fn error(&self) -> (message: Option<&str>)
        ensures
            text_view(message) == self.failure(),
    {
        match self {
            ColumnState::Error(e) => Some(e.as_str()),
            _ => None,
        }
    }
}

/// The ids of a selection path.
pub open spec fn path_ids(path: Seq<ItemId>) -> Seq<Seq<char>> {
    Seq::new(path.len(), |i: int| path[i]@)
}

/// `k` is the position of the first item of `items` whose id is `id`.
pub open spec fn is_first_match<D>(items: Seq<MillerItem<D>>, id: Seq<char>, k: int) -> bool {
    &&& 0 <= k < items.len()
    &&& items[k].id@ == id
    &&& forall|j: int| 0 <= j < k ==> (#[trigger] items[j]).id@ != id
}

/// The first item of `items` whose id is `id`.
pub open spec fn lookup<D>(items: Seq<MillerItem<D>>, id: Seq<char>) -> Option<MillerItem<D>> {
    if exists|k: int| is_first_match(items, id, k) {
        Some(items[choose|k: int| is_first_match(items, id, k)])
    } else {
        None
    }
}

/// The state recorded for parent `id`: `NotLoaded` where nothing is recorded.
pub open spec fn state_of<D>(cache: Map<Seq<char>, ColumnState<D>>, id: Seq<char>) -> ColumnState<
    D,
> {
    if cache.contains_key(id) {
        cache[id]
    } else {
        ColumnState::NotLoaded
    }
}

/// The children recorded as loaded for parent `id`.
pub open spec fn loaded_children<D>(cache: Map<Seq<char>, ColumnState<D>>, id: Seq<char>) -> Option<
    Seq<MillerItem<D>>,
> {
    state_of(cache, id).loaded()
}

/// Selecting `id` among `items` names a branch of that column.
pub open spec fn names_branch<D>(items: Seq<MillerItem<D>>, id: Seq<char>) -> bool {
    match lookup(items, id) {
        Some(item) => item.is_branch(),
        None => false,
    }
}

/// The items of column `n`: the roots for column 0; for a later column the
/// loaded children of the branch that `path[n - 1]` names in column `n - 1`.
/// `None` where the path is too short, an ancestor is not found or is no
/// branch, or its children are not loaded.
pub open spec fn column_items<D>(
    roots: Seq<MillerItem<D>>,
    cache: Map<Seq<char>, ColumnState<D>>,
    path: Seq<Seq<char>>,
    n: nat,
) -> Option<Seq<MillerItem<D>>>
    decreases n,
{
    if n == 0 {
        Some(roots)
    } else if n > path.len() {
        None
    } else {
        match column_items(roots, cache, path, (n - 1) as nat) {
            Some(items) => if names_branch(items, path[n - 1]) {
                loaded_children(cache, path[n - 1])
            } else {
                None
            },
            None => None,
        }
    }
}

/// The selection in column `n` names a branch there, so that column `n + 1`
/// is shown: with its items, or with a placeholder while they are absent.
pub open spec fn opens_column<D>(
    roots: Seq<MillerItem<D>>,
    cache: Map<Seq<char>, ColumnState<D>>,
    path: Seq<Seq<char>>,
    n: nat,
) -> bool {
    &&& n < path.len()
    &&& match column_items(roots, cache, path, n) {
        Some(items) => names_branch(items, path[n as int]),
        None => false,
    }
}

/// How many columns are shown after column `n`, given that column `n` is.
pub open spec fn columns_after<D>(
    roots: Seq<MillerItem<D>>,
    cache: Map<Seq<char>, ColumnState<D>>,
    path: Seq<Seq<char>>,
    n: nat,
) -> nat
    decreases path.len() - n,
{
    if opens_column(roots, cache, path, n) {
        1 + columns_after(roots, cache, path, n + 1)
    } else {
        0
    }
}

/// The number of columns shown: the root column, and one more for each
/// selected branch along the resolved part of the path.
pub open spec fn visible_columns<D>(
    roots: Seq<MillerItem<D>>,
    cache: Map<Seq<char>, ColumnState<D>>,
    path: Seq<Seq<char>>,
) -> nat {
    1 + columns_after(roots, cache, path, 0)
}

/// The item that the whole path names: the last id, looked up in the last
/// selected column.
pub open spec fn path_target<D>(
    roots: Seq<MillerItem<D>>,
    cache: Map<Seq<char>, ColumnState<D>>,
    path: Seq<Seq<char>>,
) -> Option<MillerItem<D>> {
    if path.len() == 0 {
        None
    } else {
        match column_items(roots, cache, path, (path.len() - 1) as nat) {
            Some(items) => lookup(items, path[path.len() - 1]),
            None => None,
        }
    }
}

/// `offsets`, extended with zeros to at least `n` entries.
pub open spec fn padded(offsets: Seq<u32>, n: nat) -> Seq<u32> {
    if offsets.len() >= n {
        offsets
    } else {
        offsets + Seq::new((n - offsets.len()) as nat, |i: int| 0u32)
    }
}

/// Once a column is unresolved, every later column is.
pub proof fn lemma_unresolved_onward<D>(
    roots: Seq<MillerItem<D>>,
    cache: Map<Seq<char>, ColumnState<D>>,
    path: Seq<Seq<char>>,
    m: nat,
    n: nat,
)
    requires
        m <= n,
        column_items(roots, cache, path, m) is None,
    ensures
        column_items(roots, cache, path, n) is None,
    decreases n,
{
    if m < n {
        lemma_unresolved_onward(roots, cache, path, m, (n - 1) as nat);
    }
}

/// The items of the columns up to `n` depend on the first `n` ids of the path only.
pub proof fn lemma_column_items_prefix<D>(
    roots: Seq<MillerItem<D>>,
    cache: Map<Seq<char>, ColumnState<D>>,
    path: Seq<Seq<char>>,
    longer: Seq<Seq<char>>,
    n: nat,
)
    requires
        n <= path.len() <= longer.len(),
        forall|i: int| 0 <= i < path.len() ==> path[i] == longer[i],
    ensures
        column_items(roots, cache, path, n) == column_items(roots, cache, longer, n),
    decreases n,
{
    if n > 0 {
        lemma_column_items_prefix(roots, cache, path, longer, (n - 1) as nat);
    }
}

/// Appending `id` to `path` adds to the columns shown after column `n`
/// exactly the column that `id` opens, if it opens one.
proof fn lemma_columns_after_extended<D>(
    roots: Seq<MillerItem<D>>,
    cache: Map<Seq<char>, ColumnState<D>>,
    path: Seq<Seq<char>>,
    id: Seq<char>,
    n: nat,
)
    requires
        n <= path.len(),
    ensures
        columns_after(roots, cache, path.push(id), n) == columns_after(roots, cache, path, n) + (
        if opens_column(roots, cache, path.push(id), path.len()) {
            1nat
        } else {
            0nat
        }),
    decreases path.len() - n,
{
    let longer = path.push(id);
    lemma_column_items_prefix(roots, cache, path, longer, n);
    if n == path.len() {
        assert(!opens_column(roots, cache, longer, n + 1));
        assert(columns_after(roots, cache, longer, n + 1) == 0);
    } else {
        assert(path[n as int] == longer[n as int]);
        assert(opens_column(roots, cache, path, n) == opens_column(roots, cache, longer, n));
        if opens_column(roots, cache, path, n) {
            lemma_columns_after_extended(roots, cache, path, id, n + 1);
        } else {
            assert(column_items(roots, cache, path, n + 1) is None);
            lemma_unresolved_onward(roots, cache, path, n + 1, path.len());
            lemma_column_items_prefix(roots, cache, path, longer, path.len());
        }
    }
}

/// Selecting one more item below the current path never hides a column.
/// If the item is a branch of the column that the path has opened, exactly
/// one more column is shown; if it is a leaf of that column, the number of
/// columns stays as it is.
pub proof fn law_columns_grow_with_selection<D>(
    roots: Seq<MillerItem<D>>,
    cache: Map<Seq<char>, ColumnState<D>>,
    path: Seq<Seq<char>>,
    id: Seq<char>,
)
    ensures
        visible_columns(roots, cache, path) <= visible_columns(roots, cache, path.push(id))
            <= visible_columns(roots, cache, path) + 1,
        match column_items(roots, cache, path, path.len()) {
            Some(items) => match lookup(items, id) {
                Some(item) => visible_columns(roots, cache, path.push(id)) == visible_columns(
                    roots,
                    cache,
                    path,
                ) + if item.is_branch() {
                    1nat
                } else {
                    0nat
                },
                None => visible_columns(roots, cache, path.push(id)) == visible_columns(
                    roots,
                    cache,
                    path,
                ),
            },
            None => visible_columns(roots, cache, path.push(id)) == visible_columns(
                roots,
                cache,
                path,
            ),
        },
{
    lemma_columns_after_extended(roots, cache, path, id, 0);
    lemma_column_items_prefix(roots, cache, path, path.push(id), path.len());
}

/// Recording a state for a parent replaces whatever was recorded for it and
/// touches no other parent: afterwards the parent's state is the one
/// recorded, its children are those of that state, and every other id has the
/// state it had.
pub proof fn law_last_record_wins<D>(
    cache: Map<Seq<char>, ColumnState<D>>,
    parent_id: Seq<char>,
    state: ColumnState<D>,
    other_id: Seq<char>,
)
    ensures
        state_of(cache.insert(parent_id, state), parent_id) == state,
        loaded_children(cache.insert(parent_id, state), parent_id) == state.loaded(),
        other_id != parent_id ==> state_of(cache.insert(parent_id, state), other_id) == state_of(
            cache,
            other_id,
        ),
{
}

/// With nothing selected only the root column is shown, it holds the
/// roots, and no item is selected, whatever the cache records.
pub proof fn law_no_selection_shows_roots<D>(
    roots: Seq<MillerItem<D>>,
    cache: Map<Seq<char>, ColumnState<D>>,
)
    ensures
        visible_columns(roots, cache, Seq::<Seq<char>>::empty()) == 1,
        column_items(roots, cache, Seq::<Seq<char>>::empty(), 0) == Some(roots),
        path_target(roots, cache, Seq::<Seq<char>>::empty()) is None,
{
}

/// A column that has items was opened by a branch found in the column before
/// it, and it holds the children loaded for that branch.
pub proof fn law_column_is_children_of_selected_branch<D>(
    roots: Seq<MillerItem<D>>,
    cache: Map<Seq<char>, ColumnState<D>>,
    path: Seq<Seq<char>>,
    n: nat,
)
    requires
        n > 0,
        column_items(roots, cache, path, n) is Some,
    ensures
        n <= path.len(),
        opens_column(roots, cache, path, (n - 1) as nat),
        column_items(roots, cache, path, n) == loaded_children(cache, path[n - 1]),
        n < visible_columns(roots, cache, path),
    decreases n,
{
    if n > 1 {
        law_column_is_children_of_selected_branch(roots, cache, path, (n - 1) as nat);
    }
    lemma_columns_after_reached(roots, cache, path, n);
}

/// If every column up to `n` was opened, the count of shown columns is `n`
/// more than that of the columns after `n`.
proof fn lemma_columns_after_reached<D>(
    roots: Seq<MillerItem<D>>,
    cache: Map<Seq<char>, ColumnState<D>>,
    path: Seq<Seq<char>>,
    n: nat,
)
    requires
        n == 0 || column_items(roots, cache, path, n) is Some,
    ensures
        visible_columns(roots, cache, path) == 1 + n + columns_after(roots, cache, path, n),
    decreases n,
{
    if n > 0 {
        if n > 1 {
            assert(column_items(roots, cache, path, (n - 1) as nat) is Some);
        }
        lemma_columns_after_reached(roots, cache, path, (n - 1) as nat);
        assert(opens_column(roots, cache, path, (n - 1) as nat));
    }
}

/// The first item of `items` with the id `id`.
fn find_item<'a, D>(items: &'a [MillerItem<D>], id: &ItemId) -> (found: Option<&'a MillerItem<D>>)
    ensures
        match found {
            Some(item) => lookup(items@, id@) == Some(*item),
            None => lookup(items@, id@) is None,
        },
{
    let mut i: usize = 0;
    while i < items.len()
        invariant
            i <= items.len(),
            forall|j: int| 0 <= j < i ==> (#[trigger] items@[j]).id@ != id@,
        decreases items.len() - i,
    {
        if items[i].id == *id {
            proof {
                assert(is_first_match(items@, id@, i as int));
                let k = choose|k: int| is_first_match(items@, id@, k);
                assert(k == i) by {
                    if k < i {
                        assert(items@[k].id@ != id@);
                    }
                    if i < k {
                        assert(items@[i as int].id@ != id@);
                    }
                }
            }
            return Some(&items[i]);
        }
        i += 1;
    }
    None
}

/// The tree cache: the root items, the selection path, the state of the
/// children of each parent that the host has reported on, and a scroll offset
/// per column. A scroll offset is kept as the bit pattern of a
/// single-precision number; the all-zero pattern is the offset zero.
#[verifier::reject_recursive_types(D)]
pub struct MillerState<D> {
    /// The items of the first column.
    pub roots: Vec<MillerItem<D>>,
    /// The current selection path.
    pub selection: SelectionPath,
    /// The children's state, by the parent's id.
    pub children: StringHashMap<ColumnState<D>>,
    /// The scroll offset of each column, by the column's number.
    pub scroll_offsets: Vec<u32>,
}

impl<D> MillerState<D> {
    /// The ids of the selection path.
    pub open spec fn path(&self) -> Seq<Seq<char>> {
        path_ids(self.selection@)
    }

    /// The items of column `n` in this state.
    pub open spec fn column(&self, n: nat) -> Option<Seq<MillerItem<D>>> {
        column_items(self.roots@, self.children@, self.path(), n)
    }

    /// The number of columns shown in this state.
    pub open spec fn columns(&self) -> nat {
        visible_columns(self.roots@, self.children@, self.path())
    }

    /// A cache with the given roots, no selection and nothing recorded.
    pub fn new(roots: Vec<MillerItem<D>>) -> (state: Self)
        ensures
            state.roots == roots,
            state.selection@ == Seq::<ItemId>::empty(),
            state.children@ == Map::<Seq<char>, ColumnState<D>>::empty(),
            state.scroll_offsets@ == Seq::<u32>::empty(),
    {
        MillerState {
            roots,
            selection: Vec::new(),
            children: StringHashMap::new(),
            scroll_offsets: Vec::new(),
        }
    }

    /// Replaces the roots. The selection, every recorded children state and
    /// the scroll offsets refer to the old tree and are dropped.
    pub fn set_roots(&mut self, roots: Vec<MillerItem<D>>)
        ensures
            final(self).roots == roots,
            final(self).selection@ == Seq::<ItemId>::empty(),
            final(self).children@ == Map::<Seq<char>, ColumnState<D>>::empty(),
            final(self).scroll_offsets@ == Seq::<u32>::empty(),
            forall|id: Seq<char>| state_of(final(self).children@, id) is NotLoaded,
            final(self).columns() == 1,
    {
        self.roots = roots;
        self.selection.clear();
        self.children.clear();
        self.scroll_offsets.clear();
    }

    /// Extends the scroll offsets with zeros until there is one for every
    /// column up to `last`.
    fn pad_scroll_offsets(&mut self, last: usize)
        requires
            last < usize::MAX,
        ensures
            final(self).roots == old(self).roots,
            final(self).selection == old(self).selection,
            final(self).children == old(self).children,
            final(self).scroll_offsets@ == padded(old(self).scroll_offsets@, (last + 1) as nat),
    {
        while self.scroll_offsets.len() <= last
            invariant
                self.roots == old(self).roots,
                self.selection == old(self).selection,
                self.children == old(self).children,
                last < usize::MAX,
                old(self).scroll_offsets@.len() <= self.scroll_offsets@.len(),
                self.scroll_offsets@.len() > old(self).scroll_offsets@.len()
                    ==> self.scroll_offsets@.len() <= last + 1,
                self.scroll_offsets@ == old(self).scroll_offsets@ + Seq::new(
                    (self.scroll_offsets@.len() - old(self).scroll_offsets@.len()) as nat,
                    |i: int| 0u32,
                ),
            decreases last + 1 - self.scroll_offsets.len(),
        {
            self.scroll_offsets.push(0);
            assert(self.scroll_offsets@ =~= old(self).scroll_offsets@ + Seq::new(
                (self.scroll_offsets@.len() - old(self).scroll_offsets@.len()) as nat,
                |i: int| 0u32,
            ));
        }
        assert(self.scroll_offsets@ =~= padded(old(self).scroll_offsets@, (last + 1) as nat));
    }

    /// Replaces the whole selection path. The path is not checked against
    /// the cache: it may name items whose column is not loaded yet. The scroll
    /// offsets are extended with zeros to one more entry than the path has.
    pub fn select(&mut self, path: SelectionPath)
        requires
            path.len() < usize::MAX,
        ensures
            final(self).selection == path,
            final(self).roots == old(self).roots,
            final(self).children == old(self).children,
            final(self).scroll_offsets@ == padded(
                old(self).scroll_offsets@,
                (path.len() + 1) as nat,
            ),
    {
        self.selection = path;
        let last: usize = self.selection.len();
        self.pad_scroll_offsets(last);
    }

    /// Selects `item_id` in column `column`: the path is cut to its first
    /// `column` ids and `item_id` is appended, so the selections of the later
    /// columns are dropped. The scroll offsets are extended with zeros to one
    /// more entry than the new path has.
    pub fn select_at(&mut self, column: usize, item_id: ItemId)
        requires
            column < usize::MAX - 1 || old(self).selection.len() < usize::MAX - 1,
        ensures
            column <= old(self).selection.len() ==> final(self).selection@ == old(
                self,
            ).selection@.take(column as int).push(item_id),
            column > old(self).selection.len() ==> final(self).selection@ == old(
                self,
            ).selection@.push(item_id),
            column <= old(self).selection.len() ==> final(self).selection@.len() == column + 1,
            column <= old(self).selection.len() ==> final(self).path() == old(self).path().take(
                column as int,
            ).push(item_id@),
            final(self).selection@.len() > 0,
            final(self).selection@.last() == item_id,
            final(self).roots == old(self).roots,
            final(self).children == old(self).children,
            final(self).scroll_offsets@ == padded(
                old(self).scroll_offsets@,
                (final(self).selection@.len() + 1) as nat,
            ),
    {
        self.selection.truncate(column);
        self.selection.push(item_id);
        assert(column <= old(self).selection.len() ==> self.path() =~= old(self).path().take(
            column as int,
        ).push(item_id@));
        let last: usize = self.selection.len();
        self.pad_scroll_offsets(last);
    }

    /// Empties the selection path.
    pub fn clear_selection(&mut self)
        ensures
            final(self).selection@ == Seq::<ItemId>::empty(),
            final(self).roots == old(self).roots,
            final(self).children == old(self).children,
            final(self).scroll_offsets == old(self).scroll_offsets,
    {
        self.selection.clear();
    }

    /// Records `children` as the loaded children of `parent_id`, whatever
    /// was recorded for it before and whether or not it was ever selected.
    pub fn set_children(&mut self, parent_id: ItemId, children: Vec<MillerItem<D>>)
        ensures
            final(self).children@ == old(self).children@.insert(
                parent_id@,
                ColumnState::Loaded(children),
            ),
            final(self).roots == old(self).roots,
            final(self).selection == old(self).selection,
            final(self).scroll_offsets == old(self).scroll_offsets,
    {
        self.children.insert(parent_id, ColumnState::Loaded(children));
    }

    /// Records that the children of `parent_id` are being fetched.
    pub fn set_loading(&mut self, parent_id: &ItemId)
        ensures
            final(self).children@ == old(self).children@.insert(
                parent_id@,
                ColumnState::Loading,
            ),
            final(self).roots == old(self).roots,
            final(self).selection == old(self).selection,
            final(self).scroll_offsets == old(self).scroll_offsets,
    {
        self.children.insert(parent_id.clone(), ColumnState::Loading);
    }

    /// Records that fetching the children of `parent_id` failed with `error`.
    pub fn set_error(&mut self, parent_id: ItemId, error: String)
        ensures
            final(self).children@ == old(self).children@.insert(
                parent_id@,
                ColumnState::Error(error),
            ),
            final(self).roots == old(self).roots,
            final(self).selection == old(self).selection,
            final(self).scroll_offsets == old(self).scroll_offsets,
    {
        self.children.insert(parent_id, ColumnState::Error(error));
    }

    /// The state recorded for `parent_id`, or `NotLoaded` for an id that
    /// nothing was recorded for.
    pub fn get_column_state(&self, parent_id: &ItemId) -> (state: &ColumnState<D>)
        ensures
            *state == state_of(self.children@, parent_id@),
    {
        match self.children.get(parent_id.as_str()) {
            Some(state) => state,
            None => &ColumnState::NotLoaded,
        }
    }

    /// The children of `parent_id`, if they are loaded.
    pub fn get_children(&self, parent_id: &ItemId) -> (items: Option<&[MillerItem<D>]>)
        ensures
            items_view(items) == loaded_children(self.children@, parent_id@),
    {
        match self.children.get(parent_id.as_str()) {
            Some(state) => state.children(),
            None => None,
        }
    }

    /// The selection path.
    pub fn selection_path(&self) -> (path: &SelectionPath)
        ensures
            path == self.selection,
    {
        &self.selection
    }

    /// The items of column `column`, where column 0 holds the roots and a
    /// later column the loaded children of the branch selected in the column
    /// before it. `None` if the selection does not reach that far, or an item
    /// on the way is not found, is a leaf, or has no loaded children.
    pub fn items_at_column(&self, column: usize) -> (items: Option<&[MillerItem<D>]>)
        ensures
            items_view(items) == self.column(column as nat),
            column == 0 ==> items_view(items) == Some(self.roots@),
    {
        if column == 0 {
            return Some(self.roots.as_slice());
        }
        if column > self.selection.len() {
            return None;
        }
        let mut current: &[MillerItem<D>] = self.roots.as_slice();
        let mut i: usize = 0;
        while i < column
            invariant
                i <= column <= self.selection.len(),
                self.column(i as nat) == Some(current@),
            decreases column - i,
        {
            let id = &self.selection[i];
            assert(self.path()[i as int] == id@);
            let next = match find_item(current, id) {
                Some(item) => if item.is_branch() {
                    self.get_children(id)
                } else {
                    None
                },
                None => None,
            };
            assert(items_view(next) == self.column((i + 1) as nat));
            match next {
                Some(children) => {
                    current = children;
                },
                None => {
                    proof {
                        lemma_unresolved_onward(
                            self.roots@,
                            self.children@,
                            self.path(),
                            (i + 1) as nat,
                            column as nat,
                        );
                    }
                    return None;
                },
            }
            i += 1;
        }
        Some(current)
    }

    /// The item that the selection path names: its last id, looked up in the
    /// last selected column. `None` if the path is empty or does not resolve
    /// all the way.
    pub fn selected_item(&self) -> (item: Option<&MillerItem<D>>)
        ensures
            match item {
                Some(found) => path_target(self.roots@, self.children@, self.path()) == Some(
                    *found,
                ),
                None => path_target(self.roots@, self.children@, self.path()) is None,
            },
    {
        let n: usize = self.selection.len();
        if n == 0 {
            return None;
        }
        let id = &self.selection[n - 1];
        assert(self.path()[n - 1] == id@);
        match self.items_at_column(n - 1) {
            Some(items) => find_item(items, id),
            None => None,
        }
    }

    /// The number of columns to show: the root column, and one more for each
    /// selected branch on the resolved part of the path. A selected branch
    /// whose children are not loaded still opens a column, which shows the
    /// loading or failure placeholder; nothing is counted beyond it. A
    /// selected leaf opens no column.
    pub fn visible_column_count(&self) -> (count: usize)
        requires
            self.selection.len() < usize::MAX,
        ensures
            count == self.columns(),
            1 <= count <= self.selection.len() + 1,
    {
        let mut current: &[MillerItem<D>] = self.roots.as_slice();
        let mut i: usize = 0;
        while i < self.selection.len()
            invariant
                i <= self.selection.len() < usize::MAX,
                self.column(i as nat) == Some(current@),
                self.columns() == 1 + i + columns_after(
                    self.roots@,
                    self.children@,
                    self.path(),
                    i as nat,
                ),
            decreases self.selection.len() - i,
        {
            let id = &self.selection[i];
            assert(self.path()[i as int] == id@);
            match find_item(current, id) {
                Some(item) => {
                    if item.is_branch() {
                        match self.get_children(id) {
                            Some(children) => {
                                current = children;
                            },
                            None => {
                                assert(self.column((i + 1) as nat) is None);
                                assert(!opens_column(
                                    self.roots@,
                                    self.children@,
                                    self.path(),
                                    (i + 1) as nat,
                                ));
                                assert(columns_after(
                                    self.roots@,
                                    self.children@,
                                    self.path(),
                                    (i + 1) as nat,
                                ) == 0);
                                return i + 2;
                            },
                        }
                    } else {
                        return i + 1;
                    }
                },
                None => {
                    return i + 1;
                },
            }
            i += 1;
        }
        i + 1
    }

    /// The state of the column `column`, which is that of the children of the
    /// item selected in the column before it. `None` for the root column,
    /// which needs no loading, and beyond the selection.
    pub fn column_state_at(&self, column: usize) -> (state: Option<&ColumnState<D>>)
        ensures
            match state {
                Some(found) => 0 < column <= self.selection.len() && *found == state_of(
                    self.children@,
                    self.path()[column - 1],
                ),
                None => column == 0 || column > self.selection.len(),
            },
    {
        if column == 0 || column > self.selection.len() {
            return None;
        }
        let parent_id = &self.selection[column - 1];
        Some(self.get_column_state(parent_id))
    }

    /// The id selected in column `column`, if the path reaches it.
    pub fn selected_at(&self, column: usize) -> (id: Option<&ItemId>)
        ensures
            match id {
                Some(found) => column < self.selection.len() && *found == self.selection@[column as int],
                None => column >= self.selection.len(),
            },
    {
        if column < self.selection.len() {
            Some(&self.selection[column])
        } else {
            None
        }
    }

    /// Records the scroll offset of a column, after extending the offsets
    /// with zeros up to that column.
    pub fn set_scroll_offset(&mut self, column: usize, offset: u32)
        requires
            column < usize::MAX,
        ensures
            final(self).scroll_offsets@ == padded(
                old(self).scroll_offsets@,
                (column + 1) as nat,
            ).update(column as int, offset),
            final(self).roots == old(self).roots,
            final(self).selection == old(self).selection,
            final(self).children == old(self).children,
    {
        self.pad_scroll_offsets(column);
        self.scroll_offsets[column] = offset;
    }

    /// The scroll offset of a column: zero where none was recorded.
    pub fn scroll_offset(&self, column: usize) -> (offset: u32)
        ensures
            offset == if column < self.scroll_offsets@.len() {
                self.scroll_offsets@[column as int]
            } else {
                0u32
            },
    {
        if column < self.scroll_offsets.len() {
            self.scroll_offsets[column]
        } else {
            0
        }
    }
}

impl<D> Default for MillerState<D> {
    fn default() -> (state: Self)
        ensures
            state.roots@ == Seq::<MillerItem<D>>::empty(),
            state.selection@ == Seq::<ItemId>::empty(),
            state.children@ == Map::<Seq<char>, ColumnState<D>>::empty(),
            state.scroll_offsets@ == Seq::<u32>::empty(),
    {
        MillerState::new(Vec::new())
    }
}

} // verus!
