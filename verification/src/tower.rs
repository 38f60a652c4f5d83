//! The tower: a fixed row of slots that holds the most recently placed boxes.
//!
//! Slot 0 is the newest box, nearest to the falling box; the last slot is the
//! oldest, the visual base. The tower fills from the base upward. Once every
//! slot is taken, each new box pushes the others one slot towards the base
//! and the base drops out.

use vstd::prelude::*;

verus! {

/// Number of slots in the tower.
pub const TOWER_SLOTS: usize = 5;

/// Width of the box that a fresh tower rests on.
pub const BASE_WIDTH: i32 = 64;

/// Left edge of the box that a fresh tower rests on.
pub const BASE_LEFT: i32 = 32;

/// A box that rests in the tower for good.
#[derive(Debug, Clone, Copy, PartialEq, Eq, Structural)]
pub struct PlacedBox {
    pub width: i32,
    pub left_x: i32,
}

/// One position of the tower.
#[derive(Debug, Clone, Copy, PartialEq, Eq, Structural)]
pub enum TowerSlot {
    Used(PlacedBox),
    Empty,
}

/// The placed boxes, newest first.
#[derive(Debug, Clone, Copy, PartialEq, Eq)]
pub struct Tower {
    pub slots: [TowerSlot; TOWER_SLOTS],
}

impl PlacedBox {
    /// A placed box has a positive width.
    pub open spec fn wf(self) -> bool {
        self.width > 0
    }

    /// The coordinate just past the right edge.
    pub open spec fn right(self) -> int {
        self.left_x + self.width
    }
}

/// The box that a fresh tower rests on, which also stands in as the
/// reference when a box is placed with nothing below it.
pub open spec fn base_box() -> PlacedBox {
    PlacedBox { width: BASE_WIDTH, left_x: BASE_LEFT }
}

/// The slots of a fresh tower: only the base is taken.
pub open spec fn initial_slots() -> Seq<TowerSlot> {
    seq![
        TowerSlot::Empty,
        TowerSlot::Empty,
        TowerSlot::Empty,
        TowerSlot::Empty,
        TowerSlot::Used(base_box()),
    ]
}

/// Every slot from `from` down to the base is taken by a box of positive
/// width, and every slot above `from` is empty.
pub open spec fn filled_from(slots: Seq<TowerSlot>, from: int) -> bool {
    &&& slots.len() == TOWER_SLOTS
    &&& 0 <= from < TOWER_SLOTS
    &&& forall|i: int| 0 <= i < from ==> slots[i] is Empty
    &&& forall|i: int|
        from <= i < TOWER_SLOTS ==> (#[trigger] slots[i] matches TowerSlot::Used(b) && b.wf())
}

/// The tower rests on its base and has no holes: the taken slots are the
/// base and an unbroken run above it, each holding a box of positive width.
pub open spec fn stacked(slots: Seq<TowerSlot>) -> bool {
    exists|from: int| filled_from(slots, from)
}

/// The slots after the base was dropped and every other box moved one slot
/// towards it. Slot 0 keeps its box until the next one is placed there.
pub open spec fn shifted(slots: Seq<TowerSlot>) -> Seq<TowerSlot> {
    Seq::new(
        slots.len(),
        |i: int|
            if i == 0 {
                slots[0]
            } else {
                slots[i - 1]
            },
    )
}

/// The greatest index below `below` whose slot is empty, or -1 if there is
/// none.
pub open spec fn highest_empty(slots: Seq<TowerSlot>, below: int) -> int
    decreases below,
{
    if below <= 0 {
        -1
    } else if slots[below - 1] is Empty {
        below - 1
    } else {
        highest_empty(slots, below - 1)
    }
}

/// The slot that the next box goes into: slot 0 once the tower is full,
/// otherwise the empty slot nearest to the base.
pub open spec fn replace_index(slots: Seq<TowerSlot>) -> int {
    if slots[0] is Used {
        0
    } else {
        highest_empty(slots, slots.len() as int)
    }
}

/// The slots as the next box finds them: shifted if the tower is full,
/// untouched otherwise.
pub open spec fn made_room(slots: Seq<TowerSlot>) -> Seq<TowerSlot> {
    if slots[0] is Used {
        shifted(slots)
    } else {
        slots
    }
}

/// The box below slot `index`, or the base box where that slot is empty or
/// does not exist.
pub open spec fn reference_at(slots: Seq<TowerSlot>, index: int) -> PlacedBox {
    if index + 1 < slots.len() {
        match slots[index + 1] {
            TowerSlot::Used(b) => b,
            TowerSlot::Empty => base_box(),
        }
    } else {
        base_box()
    }
}

/// The box that the next drop is measured against.
pub open spec fn reference(slots: Seq<TowerSlot>) -> PlacedBox {
    reference_at(made_room(slots), replace_index(slots))
}

/// The slots after `placed` was put on the tower.
pub open spec fn with_box(slots: Seq<TowerSlot>, placed: PlacedBox) -> Seq<TowerSlot> {
    made_room(slots).update(replace_index(slots), TowerSlot::Used(placed))
}

/// The taken slots among the first `n`, as pairs of slot index and box, in
/// rising order of index.
pub open spec fn used_below(slots: Seq<TowerSlot>, n: int) -> Seq<(usize, PlacedBox)>
    decreases n,
{
    if n <= 0 {
        Seq::empty()
    } else {
        match slots[n - 1] {
            TowerSlot::Used(b) => used_below(slots, n - 1).push(((n - 1) as usize, b)),
            TowerSlot::Empty => used_below(slots, n - 1),
        }
    }
}

/// The boxes of the tower, newest first, without the slots they stand in.
pub open spec fn pile(slots: Seq<TowerSlot>) -> Seq<PlacedBox> {
    used_below(slots, TOWER_SLOTS as int).map_values(|pair: (usize, PlacedBox)| pair.1)
}

/// Each pair names a slot among the first `n` and the box that this slot
/// holds.
pub proof fn lemma_used_below(slots: Seq<TowerSlot>, n: int)
    requires
        0 <= n <= slots.len() <= usize::MAX,
    ensures
        used_below(slots, n).len() <= n,
        forall|k: int|
            0 <= k < used_below(slots, n).len() ==> {
                let pair = #[trigger] used_below(slots, n)[k];
                pair.0 < n && slots[pair.0 as int] == TowerSlot::Used(pair.1)
            },
    decreases n,
{
    if n > 0 {
        lemma_used_below(slots, n - 1);
    }
}

/// Where the slot at the top of the empty run is: it is empty and every slot
/// between it and the base is taken.
pub proof fn lemma_highest_empty(slots: Seq<TowerSlot>, below: int)
    requires
        0 <= below <= slots.len(),
    ensures
        -1 <= highest_empty(slots, below) < below,
        highest_empty(slots, below) >= 0 ==> slots[highest_empty(slots, below)] is Empty,
        forall|j: int| highest_empty(slots, below) < j < below ==> slots[j] is Used,
    decreases below,
{
    if below > 0 && !(slots[below - 1] is Empty) {
        lemma_highest_empty(slots, below - 1);
    }
}

/// In a tower without holes the next box goes right above the topmost box,
/// and that topmost box is what the drop is measured against. A full tower
/// takes the box in slot 0 and measures against the box that was there.
pub proof fn lemma_stacked_target(slots: Seq<TowerSlot>, from: int)
    requires
        filled_from(slots, from),
    ensures
        replace_index(slots) == if from == 0 {
            0
        } else {
            from - 1
        },
        slots[from] matches TowerSlot::Used(top) && reference(slots) == top,
{
    lemma_highest_empty(slots, slots.len() as int);
    if from > 0 {
        let h = highest_empty(slots, slots.len() as int);
        assert(slots[0] is Empty);
        assert(h == from - 1) by {
            if h < from - 1 {
                assert(slots[from - 1] is Used);
            }
            if h >= from {
                assert(slots[h] is Used);
            }
        }
    }
}

/// A drop onto a tower without holes is measured against a box of positive
/// width.
pub proof fn lemma_stacked_reference(slots: Seq<TowerSlot>)
    requires
        stacked(slots),
    ensures
        reference(slots).wf(),
        0 <= replace_index(slots) < TOWER_SLOTS,
{
    let from = choose|from: int| filled_from(slots, from);
    lemma_stacked_target(slots, from);
}

/// Putting a box of positive width on a tower without holes gives a tower
/// without holes.
pub proof fn lemma_stack_keeps_tower(slots: Seq<TowerSlot>, placed: PlacedBox)
    requires
        stacked(slots),
        placed.wf(),
    ensures
        stacked(with_box(slots, placed)),
{
    let from = choose|from: int| filled_from(slots, from);
    lemma_stacked_target(slots, from);
    let after = with_box(slots, placed);
    if from == 0 {
        assert(filled_from(after, 0));
    } else {
        assert(filled_from(after, from - 1));
    }
}

/// In a tower without holes the taken slots among the first `n` are those
/// from the topmost box on, one after the other.
proof fn lemma_used_below_stacked(slots: Seq<TowerSlot>, from: int, n: int)
    requires
        filled_from(slots, from),
        0 <= n <= TOWER_SLOTS,
    ensures
        used_below(slots, n).len() == if n <= from {
            0
        } else {
            n - from
        },
        forall|k: int|
            0 <= k < n - from ==> #[trigger] used_below(slots, n)[k] == ((from + k) as usize, slots[from
                + k]->0),
    decreases n,
{
    if n > 0 {
        lemma_used_below_stacked(slots, from, n - 1);
        if n - 1 >= from {
            assert(slots[n - 1] is Used);
        } else {
            assert(slots[n - 1] is Empty);
        }
    }
}

/// The pile of a tower without holes lists the boxes from the topmost slot
/// down to the base.
pub proof fn lemma_pile_of_stacked(slots: Seq<TowerSlot>, from: int)
    requires
        filled_from(slots, from),
    ensures
        pile(slots) == Seq::new((TOWER_SLOTS - from) as nat, |k: int| slots[from + k]->0),
{
    lemma_used_below_stacked(slots, from, TOWER_SLOTS as int);
    assert(pile(slots) =~= Seq::new((TOWER_SLOTS - from) as nat, |k: int| slots[from + k]->0));
}

/// The tower is a pile of bounded height: a new box goes on top, and once
/// the pile has reached the full height the box at the bottom goes.
pub proof fn lemma_stack_is_push(slots: Seq<TowerSlot>, placed: PlacedBox)
    requires
        stacked(slots),
        placed.wf(),
    ensures
        1 <= pile(slots).len() <= TOWER_SLOTS,
        pile(with_box(slots, placed)) == seq![placed] + if pile(slots).len() == TOWER_SLOTS {
            pile(slots).drop_last()
        } else {
            pile(slots)
        },
{
    let from = choose|from: int| filled_from(slots, from);
    lemma_stacked_target(slots, from);
    lemma_pile_of_stacked(slots, from);
    let after = with_box(slots, placed);
    if from == 0 {
        assert(filled_from(after, 0));
        lemma_pile_of_stacked(after, 0);
        assert(pile(after) =~= seq![placed] + pile(slots).drop_last());
    } else {
        assert(filled_from(after, from - 1));
        lemma_pile_of_stacked(after, from - 1);
        assert(pile(after) =~= seq![placed] + pile(slots));
    }
}

/// A box placed on a full tower lands in slot 0; the boxes that were in
/// slots 0 to 3 stand one slot closer to the base, the old base is gone, and
/// the tower still has its five slots.
pub proof fn lemma_full_tower_shifts(slots: Seq<TowerSlot>, placed: PlacedBox)
    requires
        slots.len() == TOWER_SLOTS,
        slots[0] is Used,
    ensures
        with_box(slots, placed) == seq![
            TowerSlot::Used(placed),
            slots[0],
            slots[1],
            slots[2],
            slots[3],
        ],
        with_box(slots, placed).len() == TOWER_SLOTS,
{
    assert(with_box(slots, placed) =~= seq![
        TowerSlot::Used(placed),
        slots[0],
        slots[1],
        slots[2],
        slots[3],
    ]);
}

/// A box placed on a tower that still has room lands in the empty slot
/// nearest to the base and moves no other box.
pub proof fn lemma_roomy_tower_fills(slots: Seq<TowerSlot>, placed: PlacedBox)
    requires
        slots.len() == TOWER_SLOTS,
        slots[0] is Empty,
    ensures
        0 <= replace_index(slots) < TOWER_SLOTS,
        slots[replace_index(slots)] is Empty,
        forall|j: int| replace_index(slots) < j < TOWER_SLOTS ==> slots[j] is Used,
        with_box(slots, placed) == slots.update(replace_index(slots), TowerSlot::Used(placed)),
{
    lemma_highest_empty(slots, slots.len() as int);
    let h = highest_empty(slots, slots.len() as int);
    if h < 0 {
        assert(slots[0] is Used);
    }
}

impl View for Tower {
    type V = Seq<TowerSlot>;

    open spec fn view(&self) -> Seq<TowerSlot> {
        self.slots@
    }
}

impl Tower {
    /// The invariant of a tower in play.
    pub open spec fn wf(self) -> bool {
        stacked(self@)
    }

    /// A fresh tower: the base box in the last slot, nothing above it.
    pub fn new() -> (tower: Tower)
        ensures
            tower@ == initial_slots(),
            tower.wf(),
    {
        let tower = Tower {
            slots: [
                TowerSlot::Empty,
                TowerSlot::Empty,
                TowerSlot::Empty,
                TowerSlot::Empty,
                TowerSlot::Used(PlacedBox { width: BASE_WIDTH, left_x: BASE_LEFT }),
            ],
        };
        assert(tower@ =~= initial_slots());
        assert(filled_from(tower@, 4));
        tower
    }

    /// Whether the tower rests on its base and has no holes.
    pub fn check_wf(&self) -> (ok: bool)
        ensures
            ok == self.wf(),
    {
        let mut from: usize = 0;
        while from < TOWER_SLOTS
            invariant_except_break
                from <= TOWER_SLOTS,
                forall|i: int| 0 <= i < from ==> self@[i] is Empty,
            ensures
                from <= TOWER_SLOTS,
                forall|i: int| 0 <= i < from ==> self@[i] is Empty,
                from < TOWER_SLOTS ==> self@[from as int] is Used,
            decreases TOWER_SLOTS - from,
        {
            match self.slots[from] {
                TowerSlot::Used(_) => {
                    break ;
                },
                TowerSlot::Empty => {},
            }
            from = from + 1;
        }
        if from == TOWER_SLOTS {
            assert forall|f: int| !filled_from(self@, f) by {
                if filled_from(self@, f) {
                    assert(self@[f] is Used);
                }
            }
            return false;
        }
        let mut i: usize = from;
        while i < TOWER_SLOTS
            invariant
                from <= i <= TOWER_SLOTS,
                from < TOWER_SLOTS,
                self@[from as int] is Used,
                forall|k: int| 0 <= k < from ==> self@[k] is Empty,
                forall|k: int|
                    from <= k < i ==> (#[trigger] self@[k] matches TowerSlot::Used(b) && b.wf()),
            decreases TOWER_SLOTS - i,
        {
            let sound: bool = match self.slots[i] {
                TowerSlot::Used(b) => b.width > 0,
                TowerSlot::Empty => false,
            };
            if !sound {
                assert forall|f: int| !filled_from(self@, f) by {
                    if filled_from(self@, f) {
                        if f > from {
                            assert(self@[from as int] is Empty);
                        }
                        assert(self@[i as int] matches TowerSlot::Used(b) && b.wf());
                    }
                }
                return false;
            }
            i = i + 1;
        }
        assert(filled_from(self@, from as int));
        true
    }

    /// Whether every slot is taken, so that the next box needs room made.
    pub fn is_full(&self) -> (full: bool)
        ensures
            full == (self@[0] is Used),
    {
        match self.slots[0] {
            TowerSlot::Used(_) => true,
            TowerSlot::Empty => false,
        }
    }

    /// Stores `placed` in slot `index`, whatever the slot held.
    pub fn place(&mut self, index: usize, placed: PlacedBox)
        requires
            index < TOWER_SLOTS,
        ensures
            final(self)@ == old(self)@.update(index as int, TowerSlot::Used(placed)),
    {
        self.slots[index] = TowerSlot::Used(placed);
    }

    /// Drops the base and moves every other box one slot towards it.
    pub fn shift_discard_base(&mut self)
        ensures
            final(self)@ == shifted(old(self)@),
    {
        let mut i: usize = TOWER_SLOTS - 1;
        while i > 0
            invariant
                i < TOWER_SLOTS,
                forall|k: int| i < k < TOWER_SLOTS ==> #[trigger] self@[k] == old(self)@[k - 1],
                forall|k: int| 0 <= k <= i ==> #[trigger] self@[k] == old(self)@[k],
            decreases i,
        {
            let ghost before = self@;
            self.slots[i] = self.slots[i - 1];
            assert(self@ == before.update(i as int, before[i - 1]));
            i = i - 1;
        }
        assert(self@ =~= shifted(old(self)@));
    }

    /// The empty slot nearest to the base of a tower that is not full.
    fn nearest_empty(&self) -> (index: usize)
        requires
            self@[0] is Empty,
        ensures
            index < TOWER_SLOTS,
            index == highest_empty(self@, TOWER_SLOTS as int),
            self@[index as int] is Empty,
            forall|j: int| index < j < TOWER_SLOTS ==> self@[j] is Used,
    {
        let mut i: usize = TOWER_SLOTS - 1;
        while i > 0
            invariant
                i < TOWER_SLOTS,
                self@[0] is Empty,
                forall|j: int| i < j < TOWER_SLOTS ==> self@[j] is Used,
            ensures
                self@[i as int] is Empty,
            decreases i,
        {
            match self.slots[i] {
                TowerSlot::Empty => {
                    break ;
                },
                TowerSlot::Used(_) => {},
            }
            i = i - 1;
        }
        proof {
            lemma_highest_empty(self@, TOWER_SLOTS as int);
            let h = highest_empty(self@, TOWER_SLOTS as int);
            if h < i {
                assert(self@[i as int] is Used);
            }
            if h > i {
                assert(self@[h] is Used);
            }
        }
        i
    }

    /// Finds the slot for the next box and makes room for it: a full tower is
    /// shifted and yields slot 0, any other tower is left as it is and yields
    /// the empty slot nearest to the base.
    pub fn select_replace_index(&mut self) -> (index: usize)
        ensures
            index == replace_index(old(self)@),
            index < TOWER_SLOTS,
            final(self)@ == made_room(old(self)@),
    {
        if self.is_full() {
            self.shift_discard_base();
            0
        } else {
            self.nearest_empty()
        }
    }

    /// The box below slot `index`; the base box where that slot is empty or
    /// `index` is the last slot.
    pub fn reference_box(&self, index: usize) -> (below: PlacedBox)
        requires
            index < TOWER_SLOTS,
        ensures
            below == reference_at(self@, index as int),
    {
        if index + 1 < TOWER_SLOTS {
            match self.slots[index + 1] {
                TowerSlot::Used(b) => b,
                TowerSlot::Empty => PlacedBox { width: BASE_WIDTH, left_x: BASE_LEFT },
            }
        } else {
            PlacedBox { width: BASE_WIDTH, left_x: BASE_LEFT }
        }
    }

    /// The box that the next drop is measured against, found without
    /// touching the tower.
    pub fn reference(&self) -> (below: PlacedBox)
        ensures
            below == reference(self@),
    {
        match self.slots[0] {
            TowerSlot::Used(top) => {
                assert(reference(self@) == top);
                top
            },
            TowerSlot::Empty => {
                let index = self.nearest_empty();
                self.reference_box(index)
            },
        }
    }

    /// Puts `placed` on the tower and tells the slot it went into.
    pub fn stack(&mut self, placed: PlacedBox) -> (index: usize)
        ensures
            index == replace_index(old(self)@),
            final(self)@ == with_box(old(self)@, placed),
    {
        let index = self.select_replace_index();
        self.place(index, placed);
        index
    }

    /// The boxes of the tower with the slots they stand in, newest first;
    /// empty slots are skipped.
    pub fn boxes(&self) -> (pairs: Vec<(usize, PlacedBox)>)
        ensures
            pairs@ == used_below(self@, TOWER_SLOTS as int),
            forall|k: int|
                0 <= k < pairs.len() ==> (#[trigger] pairs[k]).0 < TOWER_SLOTS && self@[pairs[k].0 as int]
                    == TowerSlot::Used(pairs[k].1),
    {
        proof {
            lemma_used_below(self@, TOWER_SLOTS as int);
        }
        let mut pairs: Vec<(usize, PlacedBox)> = Vec::new();
        let mut i: usize = 0;
        while i < TOWER_SLOTS
            invariant
                i <= TOWER_SLOTS,
                pairs@ == used_below(self@, i as int),
            decreases TOWER_SLOTS - i,
        {
            match self.slots[i] {
                TowerSlot::Used(b) => {
                    pairs.push((i, b));
                },
                TowerSlot::Empty => {},
            }
            i = i + 1;
        }
        pairs
    }
}

} // verus!
