//! The three queues of a transcoding run and the operations that report progress
//! into them.

use vstd::prelude::*;

use super::queue::{QueueItem, QueueItemFinishedState, QueueItemID, QueueItemState, QueueItemView, QueueType};

verus! {

/// Whether some item of `items` carries the identifier `id`.
pub open spec fn has_id(items: Seq<QueueItemView>, id: int) -> bool {
    exists|i: int| 0 <= i < items.len() && #[trigger] items[i].id == id
}

/// The position of the item with identifier `id`, where there is one.
pub open spec fn position_of(items: Seq<QueueItemView>, id: int) -> int {
    choose|i: int| 0 <= i < items.len() && #[trigger] items[i].id == id
}

/// `items` without the item that carries `id`; `items` itself where no item does.
pub open spec fn without_id(items: Seq<QueueItemView>, id: int) -> Seq<QueueItemView> {
    if has_id(items, id) {
        items.remove(position_of(items, id))
    } else {
        items
    }
}

/// `items` with the item that carries `id` replaced by `replacement`; `items` itself
/// where no item does.
pub open spec fn with_replaced(
    items: Seq<QueueItemView>,
    id: int,
    replacement: QueueItemView,
) -> Seq<QueueItemView> {
    if has_id(items, id) {
        items.update(position_of(items, id), replacement)
    } else {
        items
    }
}

/// No two items of `items` share an identifier.
pub open spec fn ids_unique(items: Seq<QueueItemView>) -> bool {
    forall|i: int, j: int|
        0 <= i < items.len() && 0 <= j < items.len() && i != j ==> #[trigger] items[i].id
            != #[trigger] items[j].id
}

/// No item of `a` shares an identifier with an item of `b`.
pub open spec fn ids_disjoint(a: Seq<QueueItemView>, b: Seq<QueueItemView>) -> bool {
    forall|i: int, j: int|
        0 <= i < a.len() && 0 <= j < b.len() ==> #[trigger] a[i].id != #[trigger] b[j].id
}

/// Every item of `items` belongs to the queue `item_type` and has an identifier
/// below `bound`.
pub open spec fn all_of_type_below(
    items: Seq<QueueItemView>,
    item_type: QueueType,
    bound: int,
) -> bool {
    forall|i: int|
        0 <= i < items.len() ==> (#[trigger] items[i]).item_type == item_type && 0 <= items[i].id
            < bound
}

/// The mathematical value of a [`QueueState`]: the three queues, each in the order in
/// which its items were added, and the identifier that the next item will get.
pub ghost struct QueueStateView {
    pub library: Seq<QueueItemView>,
    pub album: Seq<QueueItemView>,
    pub file: Seq<QueueItemView>,
    pub next_id: int,
}

impl QueueStateView {
    /// The queue that holds the items of the given type.
    pub open spec fn items(self, item_type: QueueType) -> Seq<QueueItemView> {
        match item_type {
            QueueType::Library => self.library,
            QueueType::Album => self.album,
            QueueType::File => self.file,
        }
    }

    /// This state with the queue of the given type replaced.
    pub open spec fn with_items(
        self,
        item_type: QueueType,
        items: Seq<QueueItemView>,
    ) -> QueueStateView {
        match item_type {
            QueueType::Library => QueueStateView { library: items, ..self },
            QueueType::Album => QueueStateView { album: items, ..self },
            QueueType::File => QueueStateView { file: items, ..self },
        }
    }

    /// Each item sits in the queue of its type, identifiers are unique over all three
    /// queues, and all of them lie below the next identifier.
    pub open spec fn wf(self) -> bool {
        &&& 0 <= self.next_id <= u64::MAX
        &&& all_of_type_below(self.library, QueueType::Library, self.next_id)
        &&& all_of_type_below(self.album, QueueType::Album, self.next_id)
        &&& all_of_type_below(self.file, QueueType::File, self.next_id)
        &&& ids_unique(self.library)
        &&& ids_unique(self.album)
        &&& ids_unique(self.file)
        &&& ids_disjoint(self.library, self.album)
        &&& ids_disjoint(self.library, self.file)
        &&& ids_disjoint(self.album, self.file)
    }

    /// Whether any of the three queues holds an item with identifier `id`.
    pub open spec fn contains(self, id: int) -> bool {
        has_id(self.library, id) || has_id(self.album, id) || has_id(self.file, id)
    }

    /// The item with identifier `id`, where there is one.
    pub open spec fn item(self, id: int) -> QueueItemView {
        if has_id(self.library, id) {
            self.library[position_of(self.library, id)]
        } else if has_id(self.album, id) {
            self.album[position_of(self.album, id)]
        } else {
            self.file[position_of(self.file, id)]
        }
    }

    /// The empty state: no items, and identifiers start at zero.
    pub open spec fn empty() -> QueueStateView {
        QueueStateView { library: Seq::empty(), album: Seq::empty(), file: Seq::empty(), next_id: 0 }
    }

    /// The state after a pending item labelled `content` has been appended to the
    /// queue `item_type` under the next identifier.
    pub open spec fn added(self, content: Seq<char>, item_type: QueueType) -> QueueStateView {
        let item = QueueItemView {
            id: self.next_id,
            content,
            item_type,
            is_active: false,
            finished: None,
        };
        QueueStateView {
            next_id: self.next_id + 1,
            ..self.with_items(item_type, self.items(item_type).push(item))
        }
    }

    /// The state with the item `id` replaced by `replacement`.
    pub open spec fn replaced(self, id: int, replacement: QueueItemView) -> QueueStateView {
        QueueStateView {
            library: with_replaced(self.library, id, replacement),
            album: with_replaced(self.album, id, replacement),
            file: with_replaced(self.file, id, replacement),
            next_id: self.next_id,
        }
    }

    /// The state without the item `id`.
    pub open spec fn removed(self, id: int) -> QueueStateView {
        QueueStateView {
            library: without_id(self.library, id),
            album: without_id(self.album, id),
            file: without_id(self.file, id),
            next_id: self.next_id,
        }
    }

    /// The state with the queue `item_type` emptied.
    pub open spec fn cleared(self, item_type: QueueType) -> QueueStateView {
        self.with_items(item_type, Seq::empty())
    }
}

/// The views of the items of a vector, in order.
pub open spec fn views_of(items: Seq<QueueItem>) -> Seq<QueueItemView> {
    items.map_values(|item: QueueItem| item@)
}

/// In a sequence with unique identifiers, an item is found at its own position.
pub proof fn lemma_position_of(items: Seq<QueueItemView>, i: int)
    requires
        ids_unique(items),
        0 <= i < items.len(),
    ensures
        has_id(items, items[i].id),
        position_of(items, items[i].id) == i,
{
    let id = items[i].id;
    let p = position_of(items, id);
}

/// Adding an item keeps the state well formed, as long as an identifier is left.
pub proof fn lemma_added_wf(state: QueueStateView, content: Seq<char>, item_type: QueueType)
    requires
        state.wf(),
        state.next_id < u64::MAX,
    ensures
        state.added(content, item_type).wf(),
        state.added(content, item_type).contains(state.next_id),
        !state.contains(state.next_id),
{
    let after = state.added(content, item_type);
    let items = after.items(item_type);
    let last = items.len() - 1;
    assert(items[last].id == state.next_id);
}

/// Replacing an item by one with the same identifier and type keeps the state well
/// formed.
pub proof fn lemma_replaced_wf(state: QueueStateView, id: int, replacement: QueueItemView)
    requires
        state.wf(),
        state.contains(id),
        replacement.id == id,
        replacement.item_type == state.item(id).item_type,
    ensures
        state.replaced(id, replacement).wf(),
        state.replaced(id, replacement).contains(id),
        state.replaced(id, replacement).item(id) == replacement,
        state.replaced(id, replacement).next_id == state.next_id,
{
    let after = state.replaced(id, replacement);
    if has_id(state.library, id) {
        let p = position_of(state.library, id);
        lemma_position_of(after.library, p);
        assert(!has_id(state.file, id));
    } else if has_id(state.album, id) {
        let p = position_of(state.album, id);
        lemma_position_of(after.album, p);
    } else {
        let p = position_of(state.file, id);
        lemma_position_of(after.file, p);
        assert(!has_id(after.library, id));
    }
}

/// Removing an item keeps the state well formed, and the item is gone afterwards.
pub proof fn lemma_removed_wf(state: QueueStateView, id: int)
    requires
        state.wf(),
    ensures
        state.removed(id).wf(),
        !state.removed(id).contains(id),
        state.removed(id).next_id == state.next_id,
{
    lemma_without_id(state.library, id, state.album, QueueType::Library, state.next_id);
    lemma_without_id(state.library, id, state.file, QueueType::Library, state.next_id);
    let library = without_id(state.library, id);
    lemma_without_id(state.album, id, library, QueueType::Album, state.next_id);
    lemma_without_id(state.album, id, state.file, QueueType::Album, state.next_id);
    let album = without_id(state.album, id);
    lemma_without_id(state.file, id, library, QueueType::File, state.next_id);
    lemma_without_id(state.file, id, album, QueueType::File, state.next_id);
}

/// Taking the item `id` out of `items` leaves no item with that identifier and keeps
/// what held of all items: uniqueness, type and bound, and disjointness from `other`.
pub proof fn lemma_without_id(
    items: Seq<QueueItemView>,
    id: int,
    other: Seq<QueueItemView>,
    item_type: QueueType,
    bound: int,
)
    requires
        ids_unique(items),
    ensures
        !has_id(without_id(items, id), id),
        ids_unique(without_id(items, id)),
        all_of_type_below(items, item_type, bound) ==> all_of_type_below(
            without_id(items, id),
            item_type,
            bound,
        ),
        ids_disjoint(items, other) ==> ids_disjoint(without_id(items, id), other),
        ids_disjoint(other, items) ==> ids_disjoint(other, without_id(items, id)),
{
}

/// Clearing a queue keeps the state well formed.
pub proof fn lemma_cleared_wf(state: QueueStateView, item_type: QueueType)
    requires
        state.wf(),
    ensures
        state.cleared(item_type).wf(),
        state.cleared(item_type).items(item_type).len() == 0,
{
}

/// In a well-formed state, the item at position `i` of the queue `item_type` is the
/// one item with its identifier, and replacing or removing that identifier touches
/// this position only.
pub proof fn lemma_located(state: QueueStateView, item_type: QueueType, i: int)
    requires
        state.wf(),
        0 <= i < state.items(item_type).len(),
    ensures
        state.contains(state.items(item_type)[i].id),
        state.item(state.items(item_type)[i].id) == state.items(item_type)[i],
        state.items(item_type)[i].item_type == item_type,
        forall|replacement: QueueItemView|
            #[trigger] state.replaced(state.items(item_type)[i].id, replacement)
                == state.with_items(item_type, state.items(item_type).update(i, replacement)),
        state.removed(state.items(item_type)[i].id) == state.with_items(
            item_type,
            state.items(item_type).remove(i),
        ),
{
    let id = state.items(item_type)[i].id;
    lemma_position_of(state.items(item_type), i);
    if item_type is File {
        assert(!has_id(state.album, id));
    }
}

/// The life of an item, whatever else the queues hold: an item that is added, started
/// and then finished is in the finished state with the result that it was finished
/// with, and clearing its queue takes it away.
pub proof fn lemma_life_of_an_item(
    state: QueueStateView,
    content: Seq<char>,
    item_type: QueueType,
    was_ok: bool,
)
    requires
        state.wf(),
        state.next_id < u64::MAX,
    ensures
        ({
            let id = state.next_id;
            let added = state.added(content, item_type);
            let started = added.replaced(id, added.item(id).started());
            let finished = started.replaced(id, started.item(id).finished_with(was_ok));
            &&& added.item(id).state() == QueueItemState::Pending
            &&& started.item(id).state() == QueueItemState::InProgress
            &&& finished.wf()
            &&& finished.item(id).state() == (QueueItemState::Finished { ok: was_ok })
            &&& !finished.cleared(item_type).contains(id)
        }),
{
    let id = state.next_id;
    let added = state.added(content, item_type);
    lemma_added_wf(state, content, item_type);
    let last = added.items(item_type).len() - 1;
    lemma_located(added, item_type, last);
    lemma_replaced_wf(added, id, added.item(id).started());
    let started = added.replaced(id, added.item(id).started());
    lemma_replaced_wf(started, id, started.item(id).finished_with(was_ok));
    let finished = started.replaced(id, started.item(id).finished_with(was_ok));
    lemma_located(finished, item_type, last);
    let cleared = finished.cleared(item_type);
    assert(!has_id(cleared.items(item_type), id));
}

/// The number of file items in each lifecycle state.
#[derive(Clone, Copy, Debug, PartialEq, Eq, Structural)]
pub struct QueueItemCounts {
    pub pending: usize,
    pub in_progress: usize,
    pub finished_ok: usize,
    pub finished_not_ok: usize,
}

/// How many of `items` are in the lifecycle state `state`.
pub open spec fn count_in_state(items: Seq<QueueItemView>, state: QueueItemState) -> nat
    decreases items.len(),
{
    if items.len() == 0 {
        0
    } else {
        count_in_state(items.drop_last(), state) + if items.last().state() == state {
            1nat
        } else {
            0nat
        }
    }
}

/// The three queues of a run: libraries, albums and files.
///
/// Items keep the order in which they were added. Every item sits in the queue of its
/// type, and no identifier occurs twice.
pub struct QueueState {
    library_items: Vec<QueueItem>,
    album_items: Vec<QueueItem>,
    file_items: Vec<QueueItem>,
    next_id: QueueItemID,
}

impl View for QueueState {
    type V = QueueStateView;

    closed spec fn view(&self) -> QueueStateView {
        QueueStateView {
            library: views_of(self.library_items@),
            album: views_of(self.album_items@),
            file: views_of(self.file_items@),
            next_id: self.next_id as int,
        }
    }
}

/// Position of the item `id` in `items`, if it is there.
fn find_position(items: &Vec<QueueItem>, id: QueueItemID) -> (found: Option<usize>)
    ensures
        found matches Some(i) ==> i < items.len() && items[i as int].id == id,
        found is None ==> !has_id(views_of(items@), id as int),
{
    let mut i: usize = 0;
    while i < items.len()
        invariant
            i <= items.len(),
            forall|j: int| 0 <= j < i ==> (#[trigger] items[j]).id != id,
        decreases items.len() - i,
    {
        if items[i].id == id {
            return Some(i);
        }
        i += 1;
    }
    None
}

/// Replaces the item at `position` of `items`.
fn put_item(items: &mut Vec<QueueItem>, position: usize, item: QueueItem)
    requires
        position < old(items).len(),
    ensures
        views_of(final(items)@) == views_of(old(items)@).update(position as int, item@),
{
    items.set(position, item);
}

impl QueueState {
    /// Each item sits in the queue of its type and no identifier occurs twice. Every
    /// state that this module hands out is well formed, and every operation keeps it so.
    pub open spec fn wf(&self) -> bool {
        self@.wf()
    }

    /// A state with three empty queues.
    pub fn new() -> (state: Self)
        ensures
            state@ == QueueStateView::empty(),
            state.wf(),
    {
        let state = QueueState {
            library_items: Vec::new(),
            album_items: Vec::new(),
            file_items: Vec::new(),
            next_id: 0,
        };
        assert(state@.file =~= Seq::empty());
        state
    }

    /// The items of the library queue, oldest first.
    pub fn library_items(&self) -> (items: &Vec<QueueItem>)
        ensures
            views_of(items@) == self@.library,
    {
        &self.library_items
    }

    /// The items of the album queue, oldest first.
    pub fn album_items(&self) -> (items: &Vec<QueueItem>)
        ensures
            views_of(items@) == self@.album,
    {
        &self.album_items
    }

    /// The items of the file queue, oldest first.
    pub fn file_items(&self) -> (items: &Vec<QueueItem>)
        ensures
            views_of(items@) == self@.file,
    {
        &self.file_items
    }

    /// Whether another item can be added: identifiers are 64-bit and never reused.
    pub fn has_free_item_id(&self) -> (free: bool)
        ensures
            free == (self@.next_id < u64::MAX),
    {
        self.next_id < u64::MAX
    }

    /// Appends a pending item to the queue of its type and returns its identifier,
    /// which is larger than every identifier handed out before.
    pub fn add_item(&mut self, content: String, item_type: QueueType) -> (id: QueueItemID)
        requires
            old(self).wf(),
            old(self)@.next_id < u64::MAX,
        ensures
            final(self).wf(),
            id == old(self)@.next_id,
            final(self)@ == old(self)@.added(content@, item_type),
    {
        proof {
            lemma_added_wf(self@, content@, item_type);
        }
        let id = self.next_id;
        let item = QueueItem::new(id, content, item_type);
        let ghost before = self@;
        match item_type {
            QueueType::Library => {
                self.library_items.push(item);
                assert(views_of(self.library_items@) =~= before.library.push(item@));
            },
            QueueType::Album => {
                self.album_items.push(item);
                assert(views_of(self.album_items@) =~= before.album.push(item@));
            },
            QueueType::File => {
                self.file_items.push(item);
                assert(views_of(self.file_items@) =~= before.file.push(item@));
            },
        }
        self.next_id = id + 1;
        id
    }
}

impl QueueState {
    /// Where the item `id` sits: its queue and its position there.
    fn locate(&self, id: QueueItemID) -> (place: Option<(QueueType, usize)>)
        requires
            self.wf(),
        ensures
            place is Some == self@.contains(id as int),
            place matches Some((item_type, i)) ==> {
                &&& i < self@.items(item_type).len()
                &&& self@.items(item_type)[i as int].id == id
                &&& self@.item(id as int) == self@.items(item_type)[i as int]
            },
    {
        if let Some(i) = find_position(&self.library_items, id) {
            proof {
                lemma_located(self@, QueueType::Library, i as int);
            }
            return Some((QueueType::Library, i));
        }
        if let Some(i) = find_position(&self.album_items, id) {
            proof {
                lemma_located(self@, QueueType::Album, i as int);
            }
            return Some((QueueType::Album, i));
        }
        if let Some(i) = find_position(&self.file_items, id) {
            proof {
                lemma_located(self@, QueueType::File, i as int);
            }
            return Some((QueueType::File, i));
        }
        None
    }

    /// The item at a known place.
    fn item_at(&self, item_type: QueueType, position: usize) -> (item: &QueueItem)
        requires
            position < self@.items(item_type).len(),
        ensures
            item@ == self@.items(item_type)[position as int],
    {
        match item_type {
            QueueType::Library => &self.library_items[position],
            QueueType::Album => &self.album_items[position],
            QueueType::File => &self.file_items[position],
        }
    }

    /// Replaces the item at a known place by one with the same identifier and type.
    fn replace_at(&mut self, item_type: QueueType, position: usize, item: QueueItem)
        requires
            old(self).wf(),
            position < old(self)@.items(item_type).len(),
            item@.id == old(self)@.items(item_type)[position as int].id,
            item@.item_type == item_type,
        ensures
            final(self).wf(),
            final(self)@ == old(self)@.replaced(item@.id, item@),
    {
        proof {
            lemma_located(self@, item_type, position as int);
            lemma_replaced_wf(self@, item@.id, item@);
        }
        match item_type {
            QueueType::Library => put_item(&mut self.library_items, position, item),
            QueueType::Album => put_item(&mut self.album_items, position, item),
            QueueType::File => put_item(&mut self.file_items, position, item),
        }
    }

    /// Whether some queue holds an item with the identifier `id`.
    pub fn contains_item(&self, id: QueueItemID) -> (found: bool)
        requires
            self.wf(),
        ensures
            found == self@.contains(id as int),
    {
        self.locate(id).is_some()
    }

    /// The item with the identifier `id`, if some queue holds it.
    pub fn find_item_by_id(&self, id: QueueItemID) -> (found: Option<&QueueItem>)
        requires
            self.wf(),
        ensures
            found is Some == self@.contains(id as int),
            found matches Some(item) ==> item@ == self@.item(id as int),
    {
        match self.locate(id) {
            Some((item_type, position)) => Some(self.item_at(item_type, position)),
            None => None,
        }
    }

    /// The lifecycle state of the item `id`, if some queue holds it.
    pub fn get_item_state(&self, id: QueueItemID) -> (state: Option<QueueItemState>)
        requires
            self.wf(),
        ensures
            state is Some == self@.contains(id as int),
            state matches Some(s) ==> s == self@.item(id as int).state(),
    {
        match self.locate(id) {
            Some((item_type, position)) => Some(self.item_at(item_type, position).get_state()),
            None => None,
        }
    }

    /// Marks the item `id` as being worked on. Returns whether the item exists; nothing
    /// changes where it does not.
    pub fn start_item(&mut self, id: QueueItemID) -> (found: bool)
        requires
            old(self).wf(),
        ensures
            final(self).wf(),
            found == old(self)@.contains(id as int),
            found ==> final(self)@ == old(self)@.replaced(
                id as int,
                old(self)@.item(id as int).started(),
            ),
            !found ==> final(self)@ == old(self)@,
    {
        match self.locate(id) {
            Some((item_type, position)) => {
                proof {
                    lemma_located(self@, item_type, position as int);
                }
                let mut item = self.item_at(item_type, position).clone();
                item.on_item_started();
                self.replace_at(item_type, position, item);
                true
            },
            None => false,
        }
    }

    /// Records that the item `id` ended, successfully or not. The item need not have
    /// been started. Returns whether the item exists; nothing changes where it does not.
    pub fn finish_item(&mut self, id: QueueItemID, was_ok: bool) -> (found: bool)
        requires
            old(self).wf(),
        ensures
            final(self).wf(),
            found == old(self)@.contains(id as int),
            found ==> final(self)@ == old(self)@.replaced(
                id as int,
                old(self)@.item(id as int).finished_with(was_ok),
            ),
            !found ==> final(self)@ == old(self)@,
    {
        match self.locate(id) {
            Some((item_type, position)) => {
                proof {
                    lemma_located(self@, item_type, position as int);
                }
                let mut item = self.item_at(item_type, position).clone();
                item.set_finished_state(QueueItemFinishedState { is_ok: was_ok });
                self.replace_at(item_type, position, item);
                true
            },
            None => false,
        }
    }

    /// Takes the item `id` out of its queue. Returns whether the item existed; nothing
    /// changes where it did not.
    pub fn remove_item_by_id(&mut self, id: QueueItemID) -> (found: bool)
        requires
            old(self).wf(),
        ensures
            final(self).wf(),
            found == old(self)@.contains(id as int),
            final(self)@ == old(self)@.removed(id as int),
            !final(self)@.contains(id as int),
            !found ==> final(self)@ == old(self)@,
    {
        proof {
            lemma_removed_wf(self@, id as int);
        }
        match self.locate(id) {
            Some((item_type, position)) => {
                proof {
                    lemma_located(self@, item_type, position as int);
                }
                let ghost before = self@;
                match item_type {
                    QueueType::Library => {
                        self.library_items.remove(position);
                        assert(views_of(self.library_items@) =~= before.library.remove(
                            position as int,
                        ));
                    },
                    QueueType::Album => {
                        self.album_items.remove(position);
                        assert(views_of(self.album_items@) =~= before.album.remove(
                            position as int,
                        ));
                    },
                    QueueType::File => {
                        self.file_items.remove(position);
                        assert(views_of(self.file_items@) =~= before.file.remove(position as int));
                    },
                }
                true
            },
            None => false,
        }
    }

    /// Empties the queue of the given type. The other two queues keep their items.
    pub fn clear_queue_by_type(&mut self, item_type: QueueType)
        requires
            old(self).wf(),
        ensures
            final(self).wf(),
            final(self)@ == old(self)@.cleared(item_type),
    {
        match item_type {
            QueueType::Library => {
                self.library_items.clear();
                assert(views_of(self.library_items@) =~= Seq::empty());
            },
            QueueType::Album => {
                self.album_items.clear();
                assert(views_of(self.album_items@) =~= Seq::empty());
            },
            QueueType::File => {
                self.file_items.clear();
                assert(views_of(self.file_items@) =~= Seq::empty());
            },
        }
    }
}

/// The item `mutated` as it is stored after a mutation of the item `before`: all that
/// the mutation produced, under the identifier and in the queue that the item had.
pub open spec fn restamped(mutated: QueueItemView, before: QueueItemView) -> QueueItemView {
    QueueItemView { id: before.id, item_type: before.item_type, ..mutated }
}

impl QueueState {
    /// Applies `mutation` to the item `id` and stores the outcome in its place. The
    /// identifier and the queue of an item are fixed: whatever the mutation makes of
    /// them, the stored item keeps those that it had. Returns whether the item
    /// exists; where it does not, `mutation` is not called and nothing changes.
    pub fn modify_item<F: FnOnce(QueueItem) -> QueueItem>(
        &mut self,
        id: QueueItemID,
        mutation: F,
    ) -> (found: bool)
        requires
            old(self).wf(),
            forall|item: QueueItem| call_requires(mutation, (item,)),
        ensures
            final(self).wf(),
            found == old(self)@.contains(id as int),
            found ==> exists|before: QueueItem, mutated: QueueItem|
                {
                    &&& before@ == old(self)@.item(id as int)
                    &&& call_ensures(mutation, (before,), mutated)
                    &&& final(self)@ == old(self)@.replaced(
                        id as int,
                        restamped(mutated@, before@),
                    )
                },
            !found ==> final(self)@ == old(self)@,
    {
        match self.locate(id) {
            Some((item_type, position)) => {
                proof {
                    lemma_located(self@, item_type, position as int);
                }
                let before = self.item_at(item_type, position).clone();
                let ghost item_before = before;
                let mut mutated = mutation(before);
                let ghost mutated_copy = mutated;
                mutated.id = id;
                mutated.item_type = item_type;
                assert(mutated@ == restamped(mutated_copy@, item_before@));
                self.replace_at(item_type, position, mutated);
                true
            },
            None => false,
        }
    }

    /// How many file items are pending, in progress, finished well and finished badly.
    pub fn count_file_item_states(&self) -> (counts: QueueItemCounts)
        ensures
            counts.pending == count_in_state(self@.file, QueueItemState::Pending),
            counts.in_progress == count_in_state(self@.file, QueueItemState::InProgress),
            counts.finished_ok == count_in_state(
                self@.file,
                QueueItemState::Finished { ok: true },
            ),
            counts.finished_not_ok == count_in_state(
                self@.file,
                QueueItemState::Finished { ok: false },
            ),
            counts.pending + counts.in_progress + counts.finished_ok + counts.finished_not_ok
                == self@.file.len(),
    {
        let mut counts = QueueItemCounts {
            pending: 0,
            in_progress: 0,
            finished_ok: 0,
            finished_not_ok: 0,
        };
        let ghost items = self@.file;
        let mut i: usize = 0;
        while i < self.file_items.len()
            invariant
                i <= self.file_items.len(),
                items == views_of(self.file_items@),
                counts.pending == count_in_state(items.take(i as int), QueueItemState::Pending),
                counts.in_progress == count_in_state(
                    items.take(i as int),
                    QueueItemState::InProgress,
                ),
                counts.finished_ok == count_in_state(
                    items.take(i as int),
                    QueueItemState::Finished { ok: true },
                ),
                counts.finished_not_ok == count_in_state(
                    items.take(i as int),
                    QueueItemState::Finished { ok: false },
                ),
                counts.pending + counts.in_progress + counts.finished_ok + counts.finished_not_ok
                    == i,
            decreases self.file_items.len() - i,
        {
            proof {
                assert(items.take(i + 1).drop_last() =~= items.take(i as int));
            }
            match self.file_items[i].get_state() {
                QueueItemState::Pending => {
                    counts.pending += 1;
                },
                QueueItemState::InProgress => {
                    counts.in_progress += 1;
                },
                QueueItemState::Finished { ok: true } => {
                    counts.finished_ok += 1;
                },
                QueueItemState::Finished { ok: false } => {
                    counts.finished_not_ok += 1;
                },
            }
            i += 1;
        }
        assert(items.take(i as int) =~= items);
        counts
    }
}

} // verus!
