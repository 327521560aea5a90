//! The table of a precompiled normalizer.
//!
//! A precompiled normalizer replaces runs of a text as a table says. The
//! table is a double array: a run is looked up by stepping from unit to
//! unit, each step taking the position at hand, one byte of the run and
//! the offset of the unit into the next position. The steps look at no
//! bounds, so a table is fit only where no step can leave it and every
//! replacement that it names lies within the texts behind it.
//!
//! The table is laid out as four bytes that hold the size of the units in
//! bytes, the units of four bytes each, least significant byte first, and
//! the replacement texts.

use vstd::prelude::*;

verus! {

/// The number that four bytes at `at` hold, least significant byte first.
pub open spec fn word_at(bytes: Seq<u8>, at: int) -> int {
    bytes[at] + 256 * bytes[at + 1] + 65536 * bytes[at + 2] + 16777216 * bytes[at + 3]
}

/// The number of units that the table says it has.
pub open spec fn unit_count(bytes: Seq<u8>) -> int {
    word_at(bytes, 0) / 4
}

/// The table holds the units that it says it has.
pub open spec fn laid_out(bytes: Seq<u8>) -> bool {
    bytes.len() >= 4 && 4 + 4 * unit_count(bytes) <= bytes.len()
}

/// The unit at position `i`.
pub open spec fn unit_at(bytes: Seq<u8>, i: int) -> int {
    word_at(bytes, 4 + 4 * i)
}

/// Where the replacement texts begin.
pub open spec fn texts_start(bytes: Seq<u8>) -> int {
    4 + 4 * unit_count(bytes)
}

/// The offset of a unit: its bits from the tenth on, shifted by eight
/// where its ninth bit is set.
pub open spec fn offset_of(unit: int) -> int {
    (unit / 1024) * if (unit / 512) % 2 == 1 {
        256int
    } else {
        1int
    }
}

/// The unit can be stepped to with a byte of a text: its label, which is
/// its lowest byte and its highest bit, is a byte other than zero.
pub open spec fn is_labelled(unit: int) -> bool {
    unit < 0x8000_0000 && unit % 256 != 0
}

/// The unit ends a run that has a replacement.
pub open spec fn has_leaf(unit: int) -> bool {
    (unit / 256) % 2 == 1
}

/// The value of a unit: where in the texts a replacement begins.
pub open spec fn value_of(unit: int) -> int {
    unit % 0x8000_0000
}

/// The position that a step from `position` with `offset` leads to.
pub open spec fn step_of(position: int, offset: int) -> int {
    ((position as u64) ^ (offset as u64)) as int
}

/// A replacement can begin at `at` in the texts: `at` lies within them or
/// at their end, and not inside a character.
pub open spec fn starts_text(bytes: Seq<u8>, at: int) -> bool {
    let start = texts_start(bytes);
    &&& start + at <= bytes.len()
    &&& start + at < bytes.len() ==> !(0x80 <= bytes[start + at] < 0xC0)
}

/// The unit at `i` leads nowhere out of the table: where it can be stepped
/// to, the step from it stays in the table, and where it ends a run, the
/// replacement that the unit behind the step names can begin where it
/// says.
pub open spec fn unit_fits(bytes: Seq<u8>, i: int) -> bool {
    let unit = unit_at(bytes, i);
    is_labelled(unit) ==> {
        let step = step_of(i, offset_of(unit));
        &&& step < unit_count(bytes)
        &&& has_leaf(unit) ==> starts_text(bytes, value_of(unit_at(bytes, step)))
    }
}

/// No walk of the table leaves it. The table is laid out and holds whole
/// blocks of 256 units, so that a step with any byte from a position in
/// the table stays in the table; the first step, from the offset of the
/// first unit, starts in the table; and every unit fits.
pub open spec fn table_fits(bytes: Seq<u8>) -> bool {
    &&& laid_out(bytes)
    &&& unit_count(bytes) > 0
    &&& unit_count(bytes) % 256 == 0
    &&& offset_of(unit_at(bytes, 0)) < unit_count(bytes)
    &&& forall|i: int| 0 <= i < unit_count(bytes) ==> #[trigger] unit_fits(bytes, i)
}

/// Reads the number that four bytes hold.
fn read_word(bytes: &Vec<u8>, at: usize) -> (r: u64)
    requires
        at + 4 <= bytes@.len(),
    ensures
        r == word_at(bytes@, at as int),
        r < 0x1_0000_0000,
{
    assert(at + 4 <= bytes.len());
    bytes[at] as u64 + 256 * (bytes[at + 1] as u64) + 65536 * (bytes[at + 2] as u64) + 16777216 * (
    bytes[at + 3] as u64)
}

/// Computes the offset of a unit.
fn offset(unit: u64) -> (r: u64)
    requires
        unit < 0x1_0000_0000,
    ensures
        r == offset_of(unit as int),
        r < 0x4000_0000,
{
    if (unit / 512) % 2 == 1 {
        (unit / 1024) * 256
    } else {
        unit / 1024
    }
}

/// Whether the unit at `i` leads nowhere out of the table.
fn unit_is_fit(bytes: &Vec<u8>, count: u64, i: u64) -> (r: bool)
    requires
        laid_out(bytes@),
        count == unit_count(bytes@),
        i < count,
    ensures
        r == unit_fits(bytes@, i as int),
{
    let unit = read_word(bytes, (4 + 4 * i) as usize);
    if unit >= 0x8000_0000 || unit % 256 == 0 {
        return true;
    }
    let step = i ^ offset(unit);
    if step >= count {
        return false;
    }
    if (unit / 256) % 2 == 0 {
        return true;
    }
    let value = read_word(bytes, (4 + 4 * step) as usize) % 0x8000_0000;
    let at = 4 + 4 * count + value;
    if at > bytes.len() as u64 {
        return false;
    }
    if at == bytes.len() as u64 {
        return true;
    }
    let byte = bytes[at as usize];
    !(byte >= 0x80 && byte < 0xC0)
}

/// Whether no walk of the table leaves it.
pub fn table_is_fit(bytes: &Vec<u8>) -> (r: bool)
    ensures
        r == table_fits(bytes@),
{
    if bytes.len() < 4 {
        return false;
    }
    let count = read_word(bytes, 0) / 4;
    if 4 + 4 * count > bytes.len() as u64 {
        return false;
    }
    if count == 0 || count % 256 != 0 {
        return false;
    }
    if offset(read_word(bytes, 4)) >= count {
        return false;
    }
    let mut i: u64 = 0;
    while i < count
        invariant
            0 <= i <= count,
            laid_out(bytes@),
            count == unit_count(bytes@),
            forall|j: int| 0 <= j < i ==> #[trigger] unit_fits(bytes@, j),
        decreases count - i,
    {
        if !unit_is_fit(bytes, count, i) {
            return false;
        }
        i = i + 1;
    }
    true
}

} // verus!
