use vstd::prelude::*;

verus! {

/// Length in bytes of the pattern written on each redraw.
pub const MOTIF_LEN: usize = 16;

/// Byte `i` of the pattern written on each redraw: four bytes each of
/// 0x00, 0x42, 0xBB and 0xCA.
pub open spec fn motif_byte(i: int) -> u8 {
    if i < 4 {
        0x00
    } else if i < 8 {
        0x42
    } else if i < 12 {
        0xBB
    } else {
        0xCA
    }
}

/// The pattern written on each redraw.
pub open spec fn motif() -> Seq<u8> {
    Seq::new(MOTIF_LEN as nat, |i: int| motif_byte(i))
}

/// The animation cursor after one advance: it moves on by the pattern's
/// length while that keeps it below `region - pattern`, and otherwise
/// folds back to `region - cursor`.
pub open spec fn next_cursor(cursor: nat, region: nat, pattern: nat) -> nat {
    if cursor + pattern < region {
        (cursor + pattern) as nat
    } else {
        (region - cursor) as nat
    }
}

/// Where the pattern is written for a cursor: the cursor itself, held back
/// so that the pattern ends inside the region.
pub open spec fn write_offset(cursor: nat, region: nat) -> nat {
    if cursor + MOTIF_LEN <= region {
        cursor
    } else {
        (region - MOTIF_LEN) as nat
    }
}

/// Advances an animation cursor by one step of `pattern` bytes inside a
/// region of `region` bytes.
pub fn advance_cursor(cursor: usize, region: usize, pattern: usize) -> (r: usize)
    requires
        pattern <= region,
        cursor <= region,
    ensures
        r == next_cursor(cursor as nat, region as nat, pattern as nat),
        r <= region,
{
    if cursor < region - pattern {
        cursor + pattern
    } else {
        region - cursor
    }
}

fn motif_byte_exec(i: usize) -> (r: u8)
    ensures
        r == motif_byte(i as int),
{
    if i < 4 {
        0x00
    } else if i < 8 {
        0x42
    } else if i < 12 {
        0xBB
    } else {
        0xCA
    }
}

/// Writes the pattern into `region` at `offset`, leaving every other byte
/// as it was.
pub fn paint_motif(region: &mut [u8], offset: usize)
    requires
        offset + MOTIF_LEN <= old(region)@.len(),
    ensures
        final(region)@.len() == old(region)@.len(),
        final(region)@.subrange(offset as int, offset + MOTIF_LEN) == motif(),
        forall|k: int|
            0 <= k < old(region)@.len() && !(offset <= k < offset + MOTIF_LEN)
                ==> #[trigger] final(region)@[k] == old(region)@[k],
{
    let n = region.len();
    let mut j: usize = 0;
    while j < MOTIF_LEN
        invariant
            n == region@.len(),
            offset + MOTIF_LEN <= region@.len(),
            region@.len() == old(region)@.len(),
            j <= MOTIF_LEN,
            forall|k: int| 0 <= k < j ==> #[trigger] region@[offset + k] == motif_byte(k),
            forall|k: int|
                0 <= k < region@.len() && !(offset <= k < offset + j) ==> #[trigger] region@[k]
                    == old(region)@[k],
        decreases MOTIF_LEN - j,
    {
        region[offset + j] = motif_byte_exec(j);
        j = j + 1;
    }
    assert forall|k: int| 0 <= k < MOTIF_LEN implies #[trigger] region@.subrange(
        offset as int,
        offset + MOTIF_LEN,
    )[k] == motif()[k] by {
        assert(region@[offset + k] == motif_byte(k));
    }
    assert(region@.subrange(offset as int, offset + MOTIF_LEN) =~= motif());
}

/// Sets every byte of `region` to `value`.
pub fn fill_region(region: &mut [u8], value: u8)
    ensures
        final(region)@.len() == old(region)@.len(),
        forall|k: int| 0 <= k < final(region)@.len() ==> #[trigger] final(region)@[k] == value,
{
    let n = region.len();
    let mut i: usize = 0;
    while i < n
        invariant
            n == region@.len(),
            region@.len() == old(region)@.len(),
            i <= n,
            forall|k: int| 0 <= k < i ==> #[trigger] region@[k] == value,
        decreases n - i,
    {
        region[i] = value;
        i = i + 1;
    }
}

} // verus!
