//! The board of one user: `WIDTH` x `HEIGHT` checkboxes packed into a `u64`,
//! the box in column `x` of row `y` at bit `y * WIDTH + x`.
use vstd::prelude::*;
use crate::{HEIGHT, WIDTH};

verus! {

/// Whether column `x`, row `y` names a box of the board.
pub open spec fn on_board(x: u32, y: u32) -> bool {
    x < WIDTH && y < HEIGHT
}

/// The bit that holds the box in column `x` of row `y`.
pub open spec fn cell_index(x: u32, y: u32) -> u64 {
    (y * WIDTH + x) as u64
}

/// Whether bit `index` of `boxes` is set.
pub open spec fn bit_is_set(boxes: u64, index: u64) -> bool {
    (boxes >> index) & 1 == 1
}

/// Whether the box in column `x` of row `y` is ticked.
pub open spec fn spec_get_box(boxes: u64, x: u32, y: u32) -> bool {
    bit_is_set(boxes, cell_index(x, y))
}

/// The board `boxes` with the box in column `x` of row `y` ticked or cleared.
pub open spec fn spec_set_box(boxes: u64, x: u32, y: u32, checked: bool) -> u64 {
    if checked {
        boxes | (1u64 << cell_index(x, y))
    } else {
        boxes & !(1u64 << cell_index(x, y))
    }
}

/// One write to a board.
#[derive(Clone, Copy, Debug, PartialEq, Eq, Structural)]
pub struct CellWrite {
    pub x: u32,
    pub y: u32,
    pub checked: bool,
}

impl CellWrite {
    /// Whether the write names a box of the board.
    pub open spec fn valid(self) -> bool {
        on_board(self.x, self.y)
    }
}

/// The board after every write of `writes` was applied to `boxes`, first to last.
pub open spec fn apply_writes(boxes: u64, writes: Seq<CellWrite>) -> u64
    decreases writes.len(),
{
    if writes.len() == 0 {
        boxes
    } else {
        let w = writes.last();
        spec_set_box(apply_writes(boxes, writes.drop_last()), w.x, w.y, w.checked)
    }
}

/// What the last write of `writes` to column `x`, row `y` left there, if any
/// write went there.
pub open spec fn last_write(writes: Seq<CellWrite>, x: u32, y: u32) -> Option<bool>
    decreases writes.len(),
{
    if writes.len() == 0 {
        None
    } else if writes.last().x == x && writes.last().y == y {
        Some(writes.last().checked)
    } else {
        last_write(writes.drop_last(), x, y)
    }
}

/// Reads the box in column `x` of row `y`.
pub fn get_box(boxes: u64, x: u32, y: u32) -> (checked: bool)
    requires
        on_board(x, y),
    ensures
        checked == spec_get_box(boxes, x, y),
{
    (boxes >> (y * WIDTH + x)) & 1 == 1
}

/// Ticks or clears the box in column `x` of row `y` and leaves every other
/// bit as it was.
pub fn set_box(boxes: u64, x: u32, y: u32, checked: bool) -> (updated: u64)
    requires
        on_board(x, y),
    ensures
        updated == spec_set_box(boxes, x, y, checked),
        spec_get_box(updated, x, y) == checked,
        forall|i: u64| i < 64 && i != cell_index(x, y) ==> bit_is_set(updated, i) == bit_is_set(boxes, i),
{
    let index: u32 = y * WIDTH + x;
    let mask: u64 = 1u64 << index;
    proof {
        lemma_write_sets_only_its_bit(boxes, x, y, checked);
    }
    if checked {
        boxes | mask
    } else {
        boxes & !mask
    }
}

/// The two masks by which a store can apply a write in one statement:
/// `(old | set) & keep` is the board `old` after the write, whatever `old` is.
pub fn write_masks(x: u32, y: u32, checked: bool) -> (masks: (u64, u64))
    requires
        on_board(x, y),
    ensures
        masks.0 == spec_set_box(0, x, y, checked),
        masks.1 == spec_set_box(u64::MAX, x, y, checked),
{
    (set_box(0, x, y, checked), set_box(u64::MAX, x, y, checked))
}

/// A write can be applied with two masks that do not depend on the board:
/// or-ing with the write applied to the empty board and and-ing with the
/// write applied to the full board gives the board after the write.
pub proof fn lemma_masks_apply_write(boxes: u64, x: u32, y: u32, checked: bool)
    ensures
        (boxes | spec_set_box(0, x, y, checked)) & spec_set_box(u64::MAX, x, y, checked) == spec_set_box(
            boxes,
            x,
            y,
            checked,
        ),
{
    let i = cell_index(x, y);
    if checked {
        assert((boxes | (1u64 << i)) == (boxes | (0u64 | (1u64 << i))) & (0xffff_ffff_ffff_ffffu64 | (1u64 << i)))
            by (bit_vector);
    } else {
        assert((boxes & !(1u64 << i)) == (boxes | (0u64 & !(1u64 << i))) & (0xffff_ffff_ffff_ffffu64 & !(1u64
            << i))) by (bit_vector);
    }
}

/// A write leaves its own box as asked and no other bit changed.
pub proof fn lemma_write_sets_only_its_bit(boxes: u64, x: u32, y: u32, checked: bool)
    requires
        on_board(x, y),
    ensures
        spec_get_box(spec_set_box(boxes, x, y, checked), x, y) == checked,
        forall|i: u64| i < 64 && i != cell_index(x, y) ==> bit_is_set(spec_set_box(boxes, x, y, checked), i) == bit_is_set(boxes, i),
{
    let c = cell_index(x, y);
    assert(c < 64);
    assert((((boxes | (1u64 << c)) >> c) & 1) == 1) by (bit_vector)
        requires c < 64;
    assert((((boxes & !(1u64 << c)) >> c) & 1) == 0) by (bit_vector)
        requires c < 64;
    assert forall|i: u64| i < 64 && i != c implies bit_is_set(spec_set_box(boxes, x, y, checked), i) == bit_is_set(boxes, i) by {
        assert((((boxes | (1u64 << c)) >> i) & 1) == ((boxes >> i) & 1)) by (bit_vector)
            requires c < 64, i < 64, i != c;
        assert((((boxes & !(1u64 << c)) >> i) & 1) == ((boxes >> i) & 1)) by (bit_vector)
            requires c < 64, i < 64, i != c;
    }
}

/// Two boxes of the board that differ in column or row lie at different bits.
pub proof fn lemma_cells_are_distinct(x1: u32, y1: u32, x2: u32, y2: u32)
    requires
        on_board(x1, y1),
        on_board(x2, y2),
    ensures
        cell_index(x1, y1) < 25,
        cell_index(x1, y1) == cell_index(x2, y2) <==> (x1 == x2 && y1 == y2),
{
}

/// Ticking a box twice gives the board that ticking it once gives, and so
/// for clearing.
pub proof fn lemma_check_is_idempotent(boxes: u64, x: u32, y: u32, checked: bool)
    requires
        on_board(x, y),
    ensures
        spec_set_box(spec_set_box(boxes, x, y, checked), x, y, checked) == spec_set_box(boxes, x, y, checked),
{
    let c = cell_index(x, y);
    assert(((boxes | (1u64 << c)) | (1u64 << c)) == (boxes | (1u64 << c))) by (bit_vector);
    assert(((boxes & !(1u64 << c)) & !(1u64 << c)) == (boxes & !(1u64 << c))) by (bit_vector);
}

/// Ticking a box and then clearing it gives the board that clearing alone
/// gives; where the box was clear to begin with, that is the board itself.
pub proof fn lemma_check_then_uncheck(boxes: u64, x: u32, y: u32)
    requires
        on_board(x, y),
    ensures
        spec_set_box(spec_set_box(boxes, x, y, true), x, y, false) == spec_set_box(boxes, x, y, false),
        !spec_get_box(boxes, x, y) ==> spec_set_box(spec_set_box(boxes, x, y, true), x, y, false) == boxes,
{
    let c = cell_index(x, y);
    assert(c < 64);
    assert(((boxes | (1u64 << c)) & !(1u64 << c)) == (boxes & !(1u64 << c))) by (bit_vector);
    assert(((boxes >> c) & 1) != 1 ==> (boxes & !(1u64 << c)) == boxes) by (bit_vector)
        requires c < 64;
}

/// After any run of writes, a box shows what the last write to it left, and
/// a box that no write touched shows what it showed before.
pub proof fn lemma_board_reflects_writes(boxes: u64, writes: Seq<CellWrite>, x: u32, y: u32)
    requires
        on_board(x, y),
        forall|i: int| 0 <= i < writes.len() ==> (#[trigger] writes[i]).valid(),
    ensures
        spec_get_box(apply_writes(boxes, writes), x, y) == match last_write(writes, x, y) {
            Some(checked) => checked,
            None => spec_get_box(boxes, x, y),
        },
    decreases writes.len(),
{
    if writes.len() > 0 {
        let w = writes.last();
        let before = apply_writes(boxes, writes.drop_last());
        assert(w.valid());
        assert forall|i: int| 0 <= i < writes.drop_last().len() implies (#[trigger] writes.drop_last()[i]).valid() by {
            assert(writes[i].valid());
        }
        lemma_board_reflects_writes(boxes, writes.drop_last(), x, y);
        lemma_write_sets_only_its_bit(before, w.x, w.y, w.checked);
        lemma_cells_are_distinct(x, y, w.x, w.y);
    }
}

/// Writes touch the board's own bits only: every bit from `WIDTH * HEIGHT`
/// up stays as it was.
pub proof fn lemma_writes_stay_on_board(boxes: u64, writes: Seq<CellWrite>, index: u64)
    requires
        WIDTH * HEIGHT <= index < 64,
        forall|i: int| 0 <= i < writes.len() ==> (#[trigger] writes[i]).valid(),
    ensures
        bit_is_set(apply_writes(boxes, writes), index) == bit_is_set(boxes, index),
    decreases writes.len(),
{
    if writes.len() > 0 {
        let w = writes.last();
        assert(w.valid());
        assert forall|i: int| 0 <= i < writes.drop_last().len() implies (#[trigger] writes.drop_last()[i]).valid() by {
            assert(writes[i].valid());
        }
        lemma_writes_stay_on_board(boxes, writes.drop_last(), index);
        lemma_write_sets_only_its_bit(apply_writes(boxes, writes.drop_last()), w.x, w.y, w.checked);
    }
}

} // verus!
