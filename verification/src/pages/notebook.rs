//! The notebook page: the cells of a notebook, their order, and saving.

use vstd::prelude::*;

use std::collections::HashMap;

use serde_json::Value;

use crate::notebook::{CreateNotebookRequest, EditNotebookRequest, NotebookResponse};
use crate::widgets::cell::CellType;

verus! {

/// An empty JSON object (`serde_json::Value::Object` of an empty map).
/// Nothing is stated of the value, which is opaque here.
#[verifier::external_body]
fn empty_json_object() -> Value {
    Value::Object(serde_json::Map::new())
}

/// A message of the notebook page.
#[derive(Debug, Clone)]
pub enum Message {
    ErrorRequest(String),
    GetNotebookRequest(NotebookResponse),
    GetNotebookRespond(u64),
    SaveNotebookRespond(CreateNotebookRequest),
    EditNotebookRespond(EditNotebookRequest),
    CreateCell(CellType, Option<u32>),
    RemoveCell(u32),
    MoveUp(u32),
    MoveDown(u32),
    ShowButtons(Option<u32>),
    ClickSave,
}

/// The notebook page: loading, or showing a notebook's cells, each of type
/// `C` under its number, in order.
#[derive(Debug)]
pub enum NotebookPage<C> {
    Loading,
    Page {
        id: Option<u64>,
        title: String,
        description: Option<String>,
        cells: HashMap<u32, C>,
        cell_order: Vec<u32>,
        next_id: u32,
        selected: Option<u32>,
        hovered: Option<u32>,
        error: Option<String>,
    },
}

/// A valid order of cells: no cell twice, every cell numbered below the
/// next number to hand out.
pub open spec fn order_ok(order: Seq<u32>, next_id: u32) -> bool {
    &&& order.no_duplicates()
    &&& forall|i: int| 0 <= i < order.len() ==> #[trigger] order[i] < next_id
}

/// Whether the cells on the page are exactly the cells in the order.
pub open spec fn cells_match<C>(cells: Map<u32, C>, order: Seq<u32>) -> bool {
    cells.dom() == order.to_set()
}

/// A page without cells has none in its order.
proof fn lemma_no_cells<C>()
    ensures
        cells_match(Map::<u32, C>::empty(), Seq::<u32>::empty()),
{
    assert(Map::<u32, C>::empty().dom() =~= Seq::<u32>::empty().to_set());
}

/// Where cell `id` first stands in the order, if it is there.
pub open spec fn first_place(order: Seq<u32>, id: u32) -> Option<int> {
    order.index_of_first(id)
}

/// The order after adding cell `id` before the first place of cell
/// `position`, or last when there is no such cell.
pub open spec fn created(order: Seq<u32>, position: Option<u32>, id: u32) -> Seq<u32> {
    match position {
        Some(p) => match first_place(order, p) {
            Some(k) => order.insert(k, id),
            None => order.push(id),
        },
        None => order.push(id),
    }
}

/// The order without the first place of cell `id`.
pub open spec fn removed(order: Seq<u32>, id: u32) -> Seq<u32> {
    match first_place(order, id) {
        Some(k) => order.remove(k),
        None => order,
    }
}

/// The order with the cells at `i` and `j` exchanged.
pub open spec fn swapped(order: Seq<u32>, i: int, j: int) -> Seq<u32> {
    order.update(i, order[j]).update(j, order[i])
}

/// The order with cell `id`, at its first place, moved one place up when
/// it is not first.
pub open spec fn moved_up(order: Seq<u32>, id: u32) -> Seq<u32> {
    match first_place(order, id) {
        Some(k) => if k > 0 {
            swapped(order, k - 1, k)
        } else {
            order
        },
        None => order,
    }
}

/// The order with cell `id`, at its first place, moved one place down when
/// it is not last.
pub open spec fn moved_down(order: Seq<u32>, id: u32) -> Seq<u32> {
    match first_place(order, id) {
        Some(k) => if k < order.len() - 1 {
            swapped(order, k, k + 1)
        } else {
            order
        },
        None => order,
    }
}

/// The first place of a cell: where it stands with no earlier copy, or
/// none when it is absent.
pub proof fn lemma_first_place(s: Seq<u32>, x: u32)
    ensures
        match first_place(s, x) {
            Some(k) => 0 <= k < s.len() && s[k] == x && forall|j: int| 0 <= j < k ==> s[j] != x,
            None => !s.contains(x),
        },
{
    s.index_of_first_ensures(x);
}

/// A place holding `x` with no earlier copy is its first place.
pub proof fn lemma_first_place_at(s: Seq<u32>, x: u32, i: int)
    requires
        0 <= i < s.len(),
        s[i] == x,
        forall|j: int| 0 <= j < i ==> s[j] != x,
    ensures
        first_place(s, x) == Some(i),
{
    lemma_first_place(s, x);
    assert(s.contains(x));
    let k = first_place(s, x)->0;
    if k < i {
        assert(s[k] == x);
    } else if i < k {
        assert(s[i] == x);
    }
}

/// In an order without duplicates, the cell at `i` first stands at `i`.
pub proof fn lemma_index_of(s: Seq<u32>, i: int)
    requires
        s.no_duplicates(),
        0 <= i < s.len(),
    ensures
        first_place(s, s[i]) == Some(i),
{
    lemma_first_place_at(s, s[i], i);
}

/// Exchanging two cells keeps an order valid and keeps its cells.
pub proof fn lemma_swapped_ok(s: Seq<u32>, i: int, j: int, next_id: u32)
    requires
        order_ok(s, next_id),
        0 <= i < s.len(),
        0 <= j < s.len(),
    ensures
        order_ok(swapped(s, i, j), next_id),
        swapped(s, i, j).len() == s.len(),
        forall|x: u32| swapped(s, i, j).contains(x) <==> s.contains(x),
{
    let t = swapped(s, i, j);
    assert forall|a: int, b: int| 0 <= a < t.len() && 0 <= b < t.len() && a != b implies t[a]
        != t[b] by {
        let sa = if a == j {
            i
        } else if a == i {
            j
        } else {
            a
        };
        let sb = if b == j {
            i
        } else if b == i {
            j
        } else {
            b
        };
        assert(t[a] == s[sa]);
        assert(t[b] == s[sb]);
    }
    assert forall|k: int| 0 <= k < t.len() implies #[trigger] t[k] < next_id by {
        if k == j {
            assert(t[k] == s[i]);
        } else if k == i {
            assert(t[k] == s[j]);
        } else {
            assert(t[k] == s[k]);
        }
    }
    assert forall|x: u32| t.contains(x) <==> s.contains(x) by {
        if t.contains(x) {
            let k = choose|k: int| 0 <= k < t.len() && t[k] == x;
            if k == j {
                assert(s[i] == x);
            } else if k == i {
                assert(s[j] == x);
            } else {
                assert(s[k] == x);
            }
        }
        if s.contains(x) {
            let k = choose|k: int| 0 <= k < s.len() && s[k] == x;
            if k == j {
                assert(t[i] == x);
            } else if k == i {
                assert(t[j] == x);
            } else {
                assert(t[k] == x);
            }
        }
    }
}

/// Adding a fresh cell keeps the order valid under the next number.
pub proof fn lemma_created_ok(s: Seq<u32>, position: Option<u32>, next_id: u32)
    requires
        order_ok(s, next_id),
        next_id < u32::MAX,
    ensures
        order_ok(created(s, position, next_id), (next_id + 1) as u32),
        created(s, position, next_id).contains(next_id),
        created(s, position, next_id).len() == s.len() + 1,
        forall|x: u32|
            created(s, position, next_id).contains(x) <==> (s.contains(x) || x == next_id),
{
    let t = created(s, position, next_id);
    if position is Some {
        lemma_first_place(s, position->0);
    }
    if position is Some && first_place(s, position->0) is Some {
        let k = first_place(s, position->0)->0;
        s.insert_ensures(k, next_id);
        assert forall|a: int| 0 <= a < t.len() implies #[trigger] t[a] < next_id + 1 by {
            if a < k {
                assert(t[a] == s[a]);
            } else if a > k {
                assert(t[a] == s[a - 1]);
            }
        }
        assert forall|a: int, b: int| 0 <= a < t.len() && 0 <= b < t.len() && a != b implies t[a]
            != t[b] by {
            let sa = if a < k {
                a
            } else {
                a - 1
            };
            let sb = if b < k {
                b
            } else {
                b - 1
            };
            if a != k {
                assert(t[a] == s[sa]);
            }
            if b != k {
                assert(t[b] == s[sb]);
            }
        }
        assert(t[k] == next_id);
        assert forall|x: u32| t.contains(x) implies s.contains(x) || x == next_id by {
            let a = choose|a: int| 0 <= a < t.len() && t[a] == x;
            if a < k {
                assert(s[a] == x);
            } else if a > k {
                assert(s[a - 1] == x);
            }
        }
        assert forall|x: u32| s.contains(x) implies t.contains(x) by {
            let b = choose|b: int| 0 <= b < s.len() && s[b] == x;
            if b < k {
                assert(t[b] == x);
            } else {
                assert(t[b + 1] == x);
            }
        }
    } else {
        assert(t[s.len() as int] == next_id);
        assert forall|x: u32| t.contains(x) implies s.contains(x) || x == next_id by {
            let a = choose|a: int| 0 <= a < t.len() && t[a] == x;
            if a < s.len() {
                assert(s[a] == x);
            }
        }
        assert forall|x: u32| s.contains(x) implies t.contains(x) by {
            let b = choose|b: int| 0 <= b < s.len() && s[b] == x;
            assert(t[b] == x);
        }
        assert forall|a: int, b: int| 0 <= a < t.len() && 0 <= b < t.len() && a != b implies t[a]
            != t[b] by {
            if a < s.len() {
                assert(t[a] == s[a]);
            }
            if b < s.len() {
                assert(t[b] == s[b]);
            }
        }
    }
}

/// Removing a cell keeps the order valid and drops exactly that cell.
pub proof fn lemma_removed_ok(s: Seq<u32>, id: u32, next_id: u32)
    requires
        order_ok(s, next_id),
    ensures
        order_ok(removed(s, id), next_id),
        !removed(s, id).contains(id),
        forall|x: u32| x != id ==> (removed(s, id).contains(x) <==> s.contains(x)),
{
    lemma_first_place(s, id);
    if s.contains(id) {
        let k = first_place(s, id)->0;
        let t = removed(s, id);
        s.remove_ensures(k);
        assert forall|a: int| 0 <= a < t.len() implies #[trigger] t[a] < next_id by {
            if a < k {
                assert(t[a] == s[a]);
            } else {
                assert(t[a] == s[a + 1]);
            }
        }
        assert forall|a: int, b: int| 0 <= a < t.len() && 0 <= b < t.len() && a != b implies t[a]
            != t[b] by {
            let sa = if a < k {
                a
            } else {
                a + 1
            };
            let sb = if b < k {
                b
            } else {
                b + 1
            };
            assert(t[a] == s[sa]);
            assert(t[b] == s[sb]);
        }
        assert forall|x: u32| t.contains(x) implies s.contains(x) && x != id by {
            let a = choose|a: int| 0 <= a < t.len() && t[a] == x;
            let sa = if a < k {
                a
            } else {
                a + 1
            };
            assert(t[a] == s[sa]);
        }
        assert forall|x: u32| x != id && s.contains(x) implies t.contains(x) by {
            let a = choose|a: int| 0 <= a < s.len() && s[a] == x;
            if a < k {
                assert(t[a] == x);
            } else {
                assert(a != k);
                assert(t[a - 1] == x);
            }
        }
    }
}

/// Moving a cell up and then down again gives the order back.
pub proof fn lemma_move_up_then_down(s: Seq<u32>, id: u32)
    requires
        s.no_duplicates(),
        s.contains(id),
        s[0] != id,
    ensures
        moved_down(moved_up(s, id), id) == s,
{
    lemma_first_place(s, id);
    let p = first_place(s, id)->0;
    let t = moved_up(s, id);
    assert(t[p - 1] == id);
    assert(t.no_duplicates()) by {
        assert forall|a: int, b: int| 0 <= a < t.len() && 0 <= b < t.len() && a != b implies t[a]
            != t[b] by {
            let sa = if a == p {
                p - 1
            } else if a == p - 1 {
                p
            } else {
                a
            };
            let sb = if b == p {
                p - 1
            } else if b == p - 1 {
                p
            } else {
                b
            };
            assert(t[a] == s[sa]);
            assert(t[b] == s[sb]);
        }
    }
    lemma_index_of(t, p - 1);
    assert(moved_down(t, id) =~= s);
}

/// Moving a cell down and then up again gives the order back.
pub proof fn lemma_move_down_then_up(s: Seq<u32>, id: u32)
    requires
        s.no_duplicates(),
        s.contains(id),
        s.last() != id,
    ensures
        moved_up(moved_down(s, id), id) == s,
{
    lemma_first_place(s, id);
    let p = first_place(s, id)->0;
    let t = moved_down(s, id);
    assert(t[p + 1] == id);
    assert(t.no_duplicates()) by {
        assert forall|a: int, b: int| 0 <= a < t.len() && 0 <= b < t.len() && a != b implies t[a]
            != t[b] by {
            let sa = if a == p {
                p + 1
            } else if a == p + 1 {
                p
            } else {
                a
            };
            let sb = if b == p {
                p + 1
            } else if b == p + 1 {
                p
            } else {
                b
            };
            assert(t[a] == s[sa]);
            assert(t[b] == s[sb]);
        }
    }
    lemma_index_of(t, p + 1);
    assert(moved_up(t, id) =~= s);
}

/// Adding a fresh cell and then removing it gives the order back.
pub proof fn lemma_create_then_remove(s: Seq<u32>, position: Option<u32>, id: u32)
    requires
        s.no_duplicates(),
        !s.contains(id),
    ensures
        removed(created(s, position, id), id) == s,
{
    let t = created(s, position, id);
    if position is Some {
        lemma_first_place(s, position->0);
    }
    if position is Some && first_place(s, position->0) is Some {
        let k = first_place(s, position->0)->0;
        s.insert_ensures(k, id);
        assert(t.no_duplicates()) by {
            assert forall|a: int, b: int|
                0 <= a < t.len() && 0 <= b < t.len() && a != b implies t[a] != t[b] by {
                let sa = if a < k {
                    a
                } else {
                    a - 1
                };
                let sb = if b < k {
                    b
                } else {
                    b - 1
                };
                if a != k {
                    assert(t[a] == s[sa]);
                }
                if b != k {
                    assert(t[b] == s[sb]);
                }
            }
        }
        lemma_index_of(t, k);
        assert(removed(t, id) =~= s);
    } else {
        let k = s.len() as int;
        assert(t[k] == id);
        assert(t.no_duplicates()) by {
            assert forall|a: int, b: int|
                0 <= a < t.len() && 0 <= b < t.len() && a != b implies t[a] != t[b] by {
                if a < k {
                    assert(t[a] == s[a]);
                }
                if b < k {
                    assert(t[b] == s[b]);
                }
            }
        }
        lemma_index_of(t, k);
        assert(removed(t, id) =~= s);
    }
}

/// A new cell goes just before the first place of the cell it is added at,
/// everything else keeping its order; with no such cell, or none given, it
/// goes last.
pub proof fn lemma_new_cell_goes_before(s: Seq<u32>, p: u32, id: u32)
    ensures
        s.contains(p) ==> exists|k: int|
            0 <= k < s.len() && #[trigger] s[k] == p && (forall|j: int| 0 <= j < k ==> s[j] != p)
                && created(s, Some(p), id) == s.take(k) + seq![id] + s.skip(k),
        !s.contains(p) ==> created(s, Some(p), id) == s.push(id),
        created(s, None, id) == s.push(id),
{
    lemma_first_place(s, p);
    if s.contains(p) {
        let k = first_place(s, p)->0;
        assert(created(s, Some(p), id) =~= s.take(k) + seq![id] + s.skip(k));
    }
}

/// Removing a cell drops it from its first place, everything else keeping
/// its order; an absent cell leaves the order as it is.
pub proof fn lemma_removal_drops_first(s: Seq<u32>, id: u32)
    ensures
        s.contains(id) ==> exists|k: int|
            0 <= k < s.len() && #[trigger] s[k] == id && (forall|j: int| 0 <= j < k ==> s[j] != id)
                && removed(s, id) == s.take(k) + s.skip(k + 1),
        !s.contains(id) ==> removed(s, id) == s,
{
    lemma_first_place(s, id);
    if s.contains(id) {
        let k = first_place(s, id)->0;
        assert(removed(s, id) =~= s.take(k) + s.skip(k + 1));
    }
}

/// Moving a cell up trades places with the cell before its first place,
/// and moving it down with the cell after; a first cell cannot move up, a
/// last cell cannot move down, and an absent cell moves nowhere.
pub proof fn lemma_moves_trade_places(s: Seq<u32>, id: u32)
    ensures
        !s.contains(id) ==> moved_up(s, id) == s && moved_down(s, id) == s,
        s.len() > 0 && s[0] == id ==> moved_up(s, id) == s,
        s.contains(id) ==> exists|k: int|
            0 <= k < s.len() && #[trigger] s[k] == id && (forall|j: int| 0 <= j < k ==> s[j] != id) && (k
                > 0 ==> moved_up(s, id) == s.update(k - 1, id).update(k, s[k - 1]))
                && (k < s.len() - 1 ==> moved_down(s, id) == s.update(k + 1, id).update(
                k,
                s[k + 1],
            )) && (k == s.len() - 1 ==> moved_down(s, id) == s),
{
    lemma_first_place(s, id);
    if s.contains(id) {
        let k = first_place(s, id)->0;
        if k > 0 {
            assert(moved_up(s, id) =~= s.update(k - 1, id).update(k, s[k - 1]));
        }
        if k < s.len() - 1 {
            assert(moved_down(s, id) =~= s.update(k + 1, id).update(k, s[k + 1]));
        }
        assert(moved_up(s, id) == moved_up(s, id));
    }
    if s.len() > 0 && s[0] == id {
        lemma_first_place_at(s, id, 0);
    }
}

/// The first place of `x` in `v`, if it is there.
fn position(v: &Vec<u32>, x: u32) -> (res: Option<usize>)
    ensures
        match res {
            Some(i) => first_place(v@, x) == Some(i as int),
            None => first_place(v@, x) is None,
        },
{
    let n = v.len();
    let mut i: usize = 0;
    while i < n
        invariant
            n == v@.len(),
            i <= n,
            forall|j: int| 0 <= j < i ==> v@[j] != x,
        decreases n - i,
    {
        if v[i] == x {
            proof {
                lemma_first_place_at(v@, x, i as int);
            }
            return Some(i);
        }
        i += 1;
    }
    proof {
        lemma_first_place(v@, x);
    }
    None
}

/// Exchanges the cells at `i` and `j`.
fn swap_cells(v: &mut Vec<u32>, i: usize, j: usize)
    requires
        i < old(v)@.len(),
        j < old(v)@.len(),
    ensures
        final(v)@ == swapped(old(v)@, i as int, j as int),
{
    let a = v[i];
    let b = v[j];
    v.set(i, b);
    v.set(j, a);
}

impl<C> NotebookPage<C> {
    /// Whether the page is consistent: its cell order is valid, the cells
    /// are exactly those in the order, and a selected cell is one of them.
    pub open spec fn wf(self) -> bool {
        match self {
            NotebookPage::Loading => true,
            NotebookPage::Page { cells, cell_order, next_id, selected, .. } => {
                &&& order_ok(cell_order@, next_id)
                &&& cells_match(cells@, cell_order@)
                &&& selected matches Some(c) ==> cell_order@.contains(c)
            },
        }
    }

    /// The page for notebook `id`, loading it first, or an empty page for a
    /// new notebook when there is no id.
    pub fn new(id: Option<u64>) -> (res: (Self, Option<Message>))
        ensures
            res.0.wf(),
            match id {
                Some(i) => (res.1 matches Some(Message::GetNotebookRespond(j)) && j == i) && res.0 is Loading,
                None => (res.0 matches NotebookPage::Page {
                    id,
                    description,
                    cells,
                    cell_order,
                    next_id,
                    selected,
                    hovered,
                    error,
                    title,
                } && id is None && title@.len() == 0 && description is None && cells@
                    == Map::<u32, C>::empty() && cell_order@.len() == 0 && next_id == 0 && selected is None && hovered is None && error is None) && res.1 is None,
            },
    {
        proof {
            lemma_no_cells::<C>();
        }
        match id {
            Some(i) => (NotebookPage::Loading, Some(Message::GetNotebookRespond(i))),
            None => (
                NotebookPage::Page {
                    id: None,
                    title: String::new(),
                    description: None,
                    cells: HashMap::new(),
                    cell_order: Vec::new(),
                    next_id: 0,
                    selected: None,
                    hovered: None,
                    error: None,
                },
                None,
            ),
        }
    }

    /// Where the buttons under the last cell add a cell: before the number
    /// one past the last cell's, so after all cells unless that number is on
    /// the page; none when the page is empty or loading.
    pub fn bottom_position(&self) -> (res: Option<u32>)
        requires
            match *self {
                NotebookPage::Page { cell_order, .. } => cell_order@.len() > 0
                    ==> cell_order@.last() < u32::MAX,
                NotebookPage::Loading => true,
            },
        ensures
            match *self {
                NotebookPage::Page { cell_order, .. } => if cell_order@.len() > 0 {
                    res == Some((cell_order@.last() + 1) as u32)
                } else {
                    res is None
                },
                NotebookPage::Loading => res is None,
            },
    {
        match self {
            NotebookPage::Page { cell_order, next_id, .. } => {
                let n = cell_order.len();
                if n > 0 {
                    Some(cell_order[n - 1] + 1)
                } else {
                    None
                }
            },
            NotebookPage::Loading => None,
        }
    }

    /// What handling `message` does: `new` is the page after it and `res`
    /// the message sent on. A new cell is added under the next number; what
    /// that cell is, `update` states.
    pub open spec fn updated(
        old: NotebookPage<C>,
        message: Message,
        new: NotebookPage<C>,
        res: Option<Message>,
    ) -> bool {
        match message {
            Message::GetNotebookRequest(r) => (new matches NotebookPage::Page {
                id,
                title,
                description,
                cells,
                cell_order,
                next_id,
                selected,
                hovered,
                error,
            } && id == Some(r.inner.id as u64) && title == r.inner.title && description
                == r.inner.description && cells@ == Map::<u32, C>::empty() && cell_order@.len()
                == 0 && next_id == 0 && selected is None && hovered is None && error is None)
                && res is None,
            Message::ClickSave => match old {
                NotebookPage::Loading => res is None && new == old,
                NotebookPage::Page { id, title, description, .. } => new == old
                    && match id {
                    Some(_) => res matches Some(Message::EditNotebookRespond(e)) && e.title is None
                        && e.description is None && e.content is None && e.tags is None
                        && e.preview is None && e.visibility is None,
                    None => res matches Some(Message::SaveNotebookRespond(c)) && c.title == title
                        && c.description == description && c.tags@.len() == 0
                        && c.preview is None && c.visibility@ == "public"@,
                },
            },
            _ => res is None && match old {
                NotebookPage::Loading => new == old,
                NotebookPage::Page {
                    id,
                    title,
                    description,
                    cells,
                    cell_order,
                    next_id,
                    selected,
                    hovered,
                    error,
                } => (new matches NotebookPage::Page {
                    id: id2,
                    title: title2,
                    description: description2,
                    cells: cells2,
                    cell_order: order2,
                    next_id: next2,
                    selected: selected2,
                    hovered: hovered2,
                    error: error2,
                } && id2 == id && title2 == title && description2 == description && match message {
                    Message::ErrorRequest(e) => cells2 == cells && order2 == cell_order && next2
                        == next_id && selected2 == selected && hovered2 == hovered && error2 == Some(
                        e,
                    ),
                    Message::CreateCell(_, p) => cells2@ == cells@.insert(next_id, cells2@[next_id])
                        && order2@ == created(
                        cell_order@,
                        p,
                        next_id,
                    ) && next2 == next_id + 1 && selected2 == Some(next_id) && hovered2 == hovered
                        && error2 == error,
                    Message::RemoveCell(c) => cells2@ == cells@.remove(c) && order2@ == removed(
                        cell_order@,
                        c,
                    ) && next2 == next_id && selected2 == (if selected == Some(c) {
                        None
                    } else {
                        selected
                    }) && hovered2 == (if hovered == Some(c) {
                        None
                    } else {
                        hovered
                    }) && error2 == error,
                    Message::MoveUp(c) => cells2 == cells && order2@ == moved_up(cell_order@, c)
                        && next2 == next_id && selected2 == selected && hovered2 == hovered
                        && error2 == error,
                    Message::MoveDown(c) => cells2 == cells && order2@ == moved_down(cell_order@, c)
                        && next2 == next_id && selected2 == selected && hovered2 == hovered
                        && error2 == error,
                    Message::ShowButtons(c) => cells2 == cells && order2 == cell_order && next2
                        == next_id && selected2 == selected && hovered2 == c && error2 == error,
                    _ => cells2 == cells && order2 == cell_order && next2 == next_id && selected2
                        == selected && hovered2 == hovered && error2 == error,
                }),
            },
        }
    }

    /// Handles a message and gives the message to send on, if any. A new
    /// cell is made by `new_cell` from its type.
    pub fn update<F: Fn(CellType) -> C>(&mut self, message: Message, new_cell: F) -> (res: Option<
        Message,
    >)
        requires
            message is CreateCell ==> match *old(self) {
                NotebookPage::Page { next_id, .. } => next_id < u32::MAX,
                NotebookPage::Loading => true,
            },
            message matches Message::CreateCell(t, _) ==> new_cell.requires((t,)),
        ensures
            old(self).wf() ==> final(self).wf(),
            Self::updated(*old(self), message, *final(self), res),
            message matches Message::CreateCell(t, _) ==> match *old(self) {
                NotebookPage::Page { next_id, .. } => *final(self) matches NotebookPage::Page {
                    cells,
                    ..
                } && new_cell.ensures((t,), cells@[next_id]),
                NotebookPage::Loading => true,
            },
    {
        broadcast use vstd::std_specs::hash::group_hash_axioms;

        proof {
            lemma_no_cells::<C>();
        }
        if let Message::GetNotebookRequest(response) = message {
            *self = NotebookPage::Page {
                id: Some(response.inner.id as u64),
                title: response.inner.title,
                description: response.inner.description,
                cells: HashMap::new(),
                cell_order: Vec::new(),
                next_id: 0,
                selected: None,
                hovered: None,
                error: None,
            };
            return None;
        }
        let mut page = NotebookPage::Loading;
        std::mem::swap(&mut page, self);
        match page {
            NotebookPage::Loading => {
                *self = NotebookPage::Loading;
                None
            },
            NotebookPage::Page {
                id,
                title,
                description,
                mut cells,
                mut cell_order,
                mut next_id,
                mut selected,
                mut hovered,
                mut error,
            } => {
                let ghost old_order = cell_order@;
                let ghost old_cells = cells@;
                let ghost was_wf = order_ok(old_order, next_id) && cells_match(
                    old_cells,
                    old_order,
                ) && (selected matches Some(c) ==> old_order.contains(c));
                let mut out: Option<Message> = None;
                match message {
                    Message::ErrorRequest(e) => {
                        error = Some(e);
                    },
                    Message::CreateCell(t, p) => {
                        let new_id = next_id;
                        let cell = new_cell(t);
                        cells.insert(new_id, cell);
                        next_id = next_id + 1;
                        let mut placed = false;
                        if let Some(pos) = p {
                            if let Some(index) = position(&cell_order, pos) {
                                proof {
                                    lemma_first_place(old_order, pos);
                                }
                                cell_order.insert(index, new_id);
                                placed = true;
                            }
                        }
                        if !placed {
                            cell_order.push(new_id);
                        }
                        assert(cell_order@ =~= created(old_order, p, new_id));
                        assert(cells@ =~= old_cells.insert(new_id, cells@[new_id]));
                        proof {
                            if was_wf {
                                lemma_created_ok(old_order, p, new_id);
                                assert(cells@.dom() =~= cell_order@.to_set());
                            }
                        }
                        selected = Some(new_id);
                    },
                    Message::RemoveCell(c) => {
                        cells.remove(&c);
                        if let Some(index) = position(&cell_order, c) {
                            proof {
                                lemma_first_place(old_order, c);
                            }
                            cell_order.remove(index);
                        }
                        assert(cell_order@ =~= removed(old_order, c));
                        proof {
                            if was_wf {
                                lemma_removed_ok(old_order, c, next_id);
                                assert(cells@.dom() =~= cell_order@.to_set());
                            }
                        }
                        if selected == Some(c) {
                            selected = None;
                        }
                        if hovered == Some(c) {
                            hovered = None;
                        }
                    },
                    Message::MoveUp(c) => {
                        if let Some(index) = position(&cell_order, c) {
                            proof {
                                lemma_first_place(old_order, c);
                            }
                            if index > 0 {
                                swap_cells(&mut cell_order, index, index - 1);
                                assert(cell_order@ =~= swapped(
                                    old_order,
                                    index - 1,
                                    index as int,
                                ));
                                proof {
                                    if was_wf {
                                        lemma_swapped_ok(
                                            old_order,
                                            index - 1,
                                            index as int,
                                            next_id,
                                        );
                                        assert(cells@.dom() =~= cell_order@.to_set());
                                    }
                                }
                            }
                        }
                    },
                    Message::MoveDown(c) => {
                        if let Some(index) = position(&cell_order, c) {
                            proof {
                                lemma_first_place(old_order, c);
                            }
                            if index < cell_order.len() - 1 {
                                swap_cells(&mut cell_order, index, index + 1);
                                proof {
                                    if was_wf {
                                        lemma_swapped_ok(
                                            old_order,
                                            index as int,
                                            index + 1,
                                            next_id,
                                        );
                                        assert(cells@.dom() =~= cell_order@.to_set());
                                    }
                                }
                            }
                        }
                    },
                    Message::ShowButtons(c) => {
                        hovered = c;
                    },
                    Message::ClickSave => {
                        if id.is_some() {
                            out = Some(
                                Message::EditNotebookRespond(
                                    EditNotebookRequest {
                                        title: None,
                                        description: None,
                                        content: None,
                                        tags: None,
                                        preview: None,
                                        visibility: None,
                                    },
                                ),
                            );
                        } else {
                            out = Some(
                                Message::SaveNotebookRespond(
                                    CreateNotebookRequest {
                                        title: title.clone(),
                                        description: description.clone(),
                                        content: empty_json_object(),
                                        tags: Vec::new(),
                                        preview: None,
                                        visibility: "public".to_owned(),
                                    },
                                ),
                            );
                        }
                    },
                    _ => {},
                }
                *self = NotebookPage::Page {
                    id,
                    title,
                    description,
                    cells,
                    cell_order,
                    next_id,
                    selected,
                    hovered,
                    error,
                };
                out
            },
        }
    }
}

/// What the notebook page does with its cells and its saving: a new cell
/// takes the next number, becomes the selected cell and is stored under
/// that number; removing a cell forgets it and clears it from the
/// selection; saving a new notebook asks to create it with the page's
/// title and description, publicly, while saving a stored notebook asks
/// for an edit; a loaded notebook starts with no cells.
pub proof fn lemma_notebook_page<C>(
    old: NotebookPage<C>,
    message: Message,
    new: NotebookPage<C>,
    res: Option<Message>,
)
    requires
        NotebookPage::<C>::updated(old, message, new, res),
    ensures
        message is CreateCell ==> (old matches NotebookPage::Page { next_id, cells, .. } ==> new
            matches NotebookPage::Page { next_id: n2, selected, cells: c2, .. } && n2 == next_id
            + 1 && selected == Some(next_id) && c2@.contains_key(next_id) && (forall|x: u32|
            x != next_id ==> (#[trigger] c2@.contains_key(x) <==> cells@.contains_key(x)))),
        message matches Message::RemoveCell(c) ==> (old is Page ==> (new matches NotebookPage::Page {
            cells,
            selected,
            ..
        } && !cells@.contains_key(c) && selected != Some(c))),
        message is ClickSave ==> (old matches NotebookPage::Page { id, title, description, .. }
            ==> (id is None ==> (res matches Some(Message::SaveNotebookRespond(q)) && q.title
            == title && q.description == description && q.visibility@ == "public"@)) && (id is Some
            ==> res matches Some(Message::EditNotebookRespond(_)))),
        message is ClickSave ==> (old is Loading ==> res is None),
        message matches Message::GetNotebookRequest(r) ==> new matches NotebookPage::Page {
            id,
            title,
            cells,
            cell_order,
            ..
        } && id == Some(r.inner.id as u64) && title == r.inner.title && cells@.len() == 0
            && cell_order@.len() == 0,
{
    if let Message::GetNotebookRequest(r) = message {
        if let NotebookPage::Page { cells, .. } = new {
            assert(cells@.dom() =~= Set::<u32>::empty());
        }
    }
}

} // verus!
