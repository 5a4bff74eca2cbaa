//! Pressed snapshots: one usage slot per matrix position, filled line by
//! line from the sampled columns.
use vstd::prelude::*;
use usbd_human_interface_device::page::Keyboard;
use crate::keymap::{KeyMapping, COLUMNS, LINES};

verus! {

/// Number of slots of a snapshot, one per matrix position.
pub const SLOTS: usize = 36;

/// Slot of position (`line`, `column`): slots are grouped by column.
pub open spec fn slot(line: int, column: int) -> int {
    column * (LINES as int) + line
}

/// What one position contributes to a snapshot: its mapped usage when the
/// key is closed, no event otherwise.
pub open spec fn sampled(mapping: KeyMapping, closed: bool, line: int, column: int) -> Keyboard {
    if closed {
        mapping.resolve(line, column)
    } else {
        Keyboard::NoEventIndicated
    }
}

/// The snapshot of a whole sweep over the closures `closed[line][column]`.
pub open spec fn scanned(mapping: KeyMapping, closed: [[bool; 6]; 6]) -> Seq<Keyboard> {
    Seq::new(
        SLOTS as nat,
        |i: int| sampled(mapping, closed@[i % 6]@[i / 6], i % 6, i / 6),
    )
}

/// `s` after recording the sampled columns `closed` of `line`.
pub open spec fn recorded(
    s: Seq<Keyboard>,
    mapping: KeyMapping,
    line: int,
    closed: [bool; 6],
) -> Seq<Keyboard> {
    Seq::new(
        s.len(),
        |i: int|
            if i % 6 == line {
                sampled(mapping, closed@[i / 6], line, i / 6)
            } else {
                s[i]
            },
    )
}

/// A snapshot in which every slot holds no event.
pub open spec fn is_silent(s: Seq<Keyboard>) -> bool {
    forall|i: int| 0 <= i < s.len() ==> #[trigger] s[i] == Keyboard::NoEventIndicated
}

/// Each position has its own slot, and the slot gives the position back.
pub proof fn lemma_slot(line: int, column: int)
    requires
        0 <= line < LINES,
        0 <= column < COLUMNS,
    ensures
        0 <= slot(line, column) < SLOTS,
        slot(line, column) % 6 == line,
        slot(line, column) / 6 == column,
{
    assert((column * 6 + line) % 6 == line && (column * 6 + line) / 6 == column)
        by (nonlinear_arith)
        requires 0 <= line < 6, 0 <= column < 6;
}

/// A snapshot with no event in every slot.
pub fn empty_snapshot() -> (r: [Keyboard; 36])
    ensures
        is_silent(r@),
{
    [Keyboard::NoEventIndicated; 36]
}

/// Records the sampled columns of `line`: the slot of each of its positions
/// gets the mapped usage where `closed` says the key is down and no event
/// elsewhere. Slots of other lines keep their value.
pub fn record_line(
    snapshot: &mut [Keyboard; 36],
    mapping: &KeyMapping,
    line: usize,
    closed: &[bool; 6],
)
    requires
        line < LINES,
    ensures
        final(snapshot)@ == recorded(old(snapshot)@, *mapping, line as int, *closed),
        forall|column: int|
            0 <= column < COLUMNS ==> #[trigger] final(snapshot)@[slot(line as int, column)]
                == sampled(*mapping, closed@[column], line as int, column),
        forall|i: int|
            0 <= i < SLOTS && i % 6 != line ==> #[trigger] final(snapshot)@[i] == old(
                snapshot,
            )@[i],
{
    let mut column: usize = 0;
    while column < COLUMNS
        invariant
            line < LINES,
            column <= COLUMNS,
            forall|c: int|
                0 <= c < column ==> #[trigger] snapshot@[slot(line as int, c)] == sampled(
                    *mapping,
                    closed@[c],
                    line as int,
                    c,
                ),
            forall|i: int|
                0 <= i < SLOTS && (i % 6 != line || i / 6 >= column) ==> #[trigger] snapshot@[i]
                    == old(snapshot)@[i],
        decreases COLUMNS - column,
    {
        proof {
            lemma_slot(line as int, column as int);
        }
        let key = if closed[column] {
            mapping.mapping(line, column)
        } else {
            Keyboard::NoEventIndicated
        };
        snapshot[column * LINES + line] = key;
        assert forall|c: int| 0 <= c < column + 1 implies #[trigger] snapshot@[slot(line as int, c)]
            == sampled(*mapping, closed@[c], line as int, c) by {
            lemma_slot(line as int, c);
        }
        column += 1;
    }
    assert forall|i: int| 0 <= i < SLOTS implies #[trigger] snapshot@[i] == recorded(
        old(snapshot)@,
        *mapping,
        line as int,
        *closed,
    )[i] by {
        lemma_slot(i % 6, i / 6);
    }
    assert(snapshot@ =~= recorded(old(snapshot)@, *mapping, line as int, *closed));
}

/// Builds the snapshot of a whole sweep: `closed[line][column]` tells
/// whether the key at that position was found down.
pub fn scan(mapping: &KeyMapping, closed: &[[bool; 6]; 6]) -> (r: [Keyboard; 36])
    ensures
        r@ == scanned(*mapping, *closed),
        forall|line: int, column: int|
            0 <= line < LINES && 0 <= column < COLUMNS ==> #[trigger] r@[slot(line, column)]
                == sampled(*mapping, closed@[line]@[column], line, column),
{
    let mut snapshot = empty_snapshot();
    let mut line: usize = 0;
    while line < LINES
        invariant
            line <= LINES,
            forall|l: int, c: int|
                0 <= l < line && 0 <= c < COLUMNS ==> #[trigger] snapshot@[slot(l, c)] == sampled(
                    *mapping,
                    closed@[l]@[c],
                    l,
                    c,
                ),
        decreases LINES - line,
    {
        let ghost before = snapshot;
        record_line(&mut snapshot, mapping, line, &closed[line]);
        assert forall|l: int, c: int| 0 <= l < line + 1 && 0 <= c < COLUMNS implies #[trigger] snapshot@[slot(l, c)]
            == sampled(*mapping, closed@[l]@[c], l, c) by {
            lemma_slot(l, c);
            if l < line {
                assert(snapshot@[slot(l, c)] == before@[slot(l, c)]);
            }
        }
        line += 1;
    }
    assert forall|i: int| 0 <= i < SLOTS implies #[trigger] snapshot@[i] == scanned(*mapping, *closed)[i] by {
        lemma_slot(i % 6, i / 6);
        assert(slot(i % 6, i / 6) == i);
    }
    assert(snapshot@ =~= scanned(*mapping, *closed));
    snapshot
}

/// Scanning a matrix with every key open yields a silent snapshot, whatever
/// the mapping. A sweep keeps nothing of earlier sweeps, so every repeated
/// scan of an open matrix is silent too.
pub proof fn lemma_open_matrix_is_silent(mapping: KeyMapping, closed: [[bool; 6]; 6])
    requires
        forall|line: int, column: int|
            0 <= line < LINES && 0 <= column < COLUMNS ==> !#[trigger] closed@[line]@[column],
    ensures
        is_silent(scanned(mapping, closed)),
{
    assert forall|i: int| 0 <= i < SLOTS implies #[trigger] scanned(mapping, closed)[i]
        == Keyboard::NoEventIndicated by {
        assert(!closed@[i % 6]@[i / 6]);
    }
}

} // verus!
