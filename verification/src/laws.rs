//! Properties of the console model that relate several operations, each
//! proved once and for all over the spec functions the writer's contracts
//! are stated with.

use vstd::prelude::*;

use crate::buffer::ScreenChar;
use crate::buffer::BUFFER_HEIGHT;
use crate::buffer::BUFFER_WIDTH;
use crate::writer::after_byte;
use crate::writer::after_bytes;
use crate::writer::after_new_line;
use crate::writer::blank_row;
use crate::writer::bottom_row;
use crate::writer::printable;
use crate::writer::substituted;
use crate::writer::ConsoleState;

verus! {

/// Writing a byte keeps the console well-formed: the grid keeps its
/// dimensions and the cursor stays at or before the right edge.
pub proof fn lemma_after_byte_wf(s: ConsoleState, byte: u8)
    requires
        s.wf(),
    ensures
        after_byte(s, byte).wf(),
{
    assert forall|r: int| 0 <= r < BUFFER_HEIGHT implies (#[trigger] after_byte(
        s,
        byte,
    ).grid[r]).len() == BUFFER_WIDTH by {}
}

/// Writing any byte sequence keeps the console well-formed.
pub proof fn lemma_after_bytes_wf(s: ConsoleState, bytes: Seq<u8>)
    requires
        s.wf(),
    ensures
        after_bytes(s, bytes).wf(),
    decreases bytes.len(),
{
    if bytes.len() > 0 {
        lemma_after_bytes_wf(s, bytes.drop_last());
        lemma_after_byte_wf(after_bytes(s, bytes.drop_last()), substituted(bytes.last()));
    }
}

/// Writing never changes the color attribute: only the grid and the cursor
/// move.
pub proof fn lemma_after_bytes_keeps_color(s: ConsoleState, bytes: Seq<u8>)
    ensures
        after_bytes(s, bytes).color == s.color,
    decreases bytes.len(),
{
    if bytes.len() > 0 {
        lemma_after_bytes_keeps_color(s, bytes.drop_last());
    }
}

/// Writing a one-byte sequence is one write of that byte, after
/// substitution.
pub proof fn lemma_after_bytes_singleton(s: ConsoleState, byte: u8)
    ensures
        after_bytes(s, seq![byte]) == after_byte(s, substituted(byte)),
{
    assert(seq![byte].drop_last() =~= Seq::<u8>::empty());
    assert(after_bytes(s, seq![byte].drop_last()) == s);
    assert(seq![byte].last() == byte);
}

/// Writing one whole sequence is the same as writing its two halves one
/// after the other: each request's bytes act on the console as one
/// contiguous block, and requests compose sequentially.
pub proof fn lemma_after_bytes_append(s: ConsoleState, a: Seq<u8>, b: Seq<u8>)
    ensures
        after_bytes(s, a + b) == after_bytes(after_bytes(s, a), b),
    decreases b.len(),
{
    if b.len() == 0 {
        assert(a + b =~= a);
    } else {
        lemma_after_bytes_append(s, a, b.drop_last());
        assert((a + b).drop_last() =~= a + b.drop_last());
        assert((a + b).last() == b.last());
    }
}

/// Writing one printable byte puts exactly that byte, in the current color,
/// into the bottom-row cell the cursor lands on — just left of the new
/// cursor — wherever the cursor stood. Away from the right edge that cell is
/// the cursor's own, the cursor moves one column right, and nothing else
/// changes.
pub proof fn lemma_printable_pass_through(s: ConsoleState, byte: u8)
    requires
        s.wf(),
        printable(byte),
    ensures
        after_bytes(s, seq![byte]).column == if s.column < BUFFER_WIDTH as int {
            s.column + 1
        } else {
            1
        },
        bottom_row(after_bytes(s, seq![byte]).grid)[after_bytes(s, seq![byte]).column - 1]
            == (ScreenChar { ascii_character: byte, color_code: s.color }),
        after_bytes(s, seq![byte]).color == s.color,
        s.column < BUFFER_WIDTH ==> forall|r: int|
            0 <= r < BUFFER_HEIGHT as int - 1 ==> #[trigger] after_bytes(s, seq![byte]).grid[r]
                == s.grid[r],
        s.column < BUFFER_WIDTH ==> forall|c: int|
            0 <= c < BUFFER_WIDTH && c != s.column ==> #[trigger] bottom_row(
                after_bytes(s, seq![byte]).grid,
            )[c] == bottom_row(s.grid)[c],
{
    lemma_after_bytes_singleton(s, byte);
}

/// Writing any byte that is neither printable nor the newline puts the
/// placeholder glyph 0xFE into the cell the cursor lands on instead,
/// wherever the cursor stood.
pub proof fn lemma_substitution(s: ConsoleState, byte: u8)
    requires
        s.wf(),
        !printable(byte),
        byte != 0x0A,
    ensures
        bottom_row(after_bytes(s, seq![byte]).grid)[after_bytes(s, seq![byte]).column - 1]
            == (ScreenChar { ascii_character: 0xFE, color_code: s.color }),
        after_bytes(s, seq![byte]).column == if s.column < BUFFER_WIDTH as int {
            s.column + 1
        } else {
            1
        },
{
    lemma_after_bytes_singleton(s, byte);
}

/// A scroll discards row 0's content for good, moves every other row up by
/// exactly one, leaves the new bottom row blank, and returns the cursor to
/// column 0.
pub proof fn lemma_scroll_preserves_content(s: ConsoleState)
    requires
        s.wf(),
    ensures
        forall|r: int|
            0 <= r < BUFFER_HEIGHT as int - 1 ==> #[trigger] after_new_line(s).grid[r] == s.grid[r
                + 1],
        after_new_line(s).grid[BUFFER_HEIGHT as int - 1] == blank_row(s.color),
        after_new_line(s).column == 0,
        after_new_line(s).color == s.color,
{
}

/// A sequence of printable bytes that fits in the rest of the line lands,
/// byte for byte and in the current color, in consecutive cells of the
/// bottom row starting at the cursor; every other cell is untouched and the
/// cursor advances by the sequence's length.
pub proof fn lemma_printables_fill_row(s: ConsoleState, bs: Seq<u8>)
    requires
        s.wf(),
        forall|j: int| 0 <= j < bs.len() ==> printable(#[trigger] bs[j]),
        s.column + bs.len() <= BUFFER_WIDTH,
    ensures
        after_bytes(s, bs).column == s.column + bs.len(),
        after_bytes(s, bs).color == s.color,
        forall|r: int|
            0 <= r < BUFFER_HEIGHT as int - 1 ==> #[trigger] after_bytes(s, bs).grid[r]
                == s.grid[r],
        forall|j: int|
            0 <= j < bs.len() ==> bottom_row(after_bytes(s, bs).grid)[s.column + j] == (ScreenChar {
                ascii_character: #[trigger] bs[j],
                color_code: s.color,
            }),
        forall|c: int|
            0 <= c < BUFFER_WIDTH && !(s.column <= c < s.column + bs.len())
                ==> #[trigger] bottom_row(after_bytes(s, bs).grid)[c] == bottom_row(s.grid)[c],
    decreases bs.len(),
{
    if bs.len() > 0 {
        assert forall|j: int| 0 <= j < bs.drop_last().len() implies printable(
            #[trigger] bs.drop_last()[j],
        ) by {
            assert(bs.drop_last()[j] == bs[j]);
        }
        lemma_printables_fill_row(s, bs.drop_last());
        lemma_after_bytes_wf(s, bs.drop_last());
        assert(bs.last() == bs[bs.len() - 1]);
        assert(substituted(bs.last()) == bs.last());
        let t = after_bytes(s, bs.drop_last());
        let full = after_bytes(s, bs);
        assert(full == after_byte(t, substituted(bs.last())));
        assert forall|j: int| 0 <= j < bs.len() implies bottom_row(full.grid)[s.column + j]
            == (ScreenChar { ascii_character: #[trigger] bs[j], color_code: s.color }) by {
            if j < bs.len() - 1 {
                assert(bs.drop_last()[j] == bs[j]);
                assert(bottom_row(t.grid)[s.column + j] == (ScreenChar {
                    ascii_character: bs[j],
                    color_code: s.color,
                }));
            }
        }
    }
}

/// The wrap: with the bottom row full — the cursor at the right edge — one
/// more printable byte first scrolls the grid, so the just-filled bottom row
/// moves up one row, and then lands at column 0 of the new bottom row.
pub proof fn lemma_wrap(s: ConsoleState, byte: u8)
    requires
        s.wf(),
        printable(byte),
        s.column == BUFFER_WIDTH,
    ensures
        after_byte(s, byte).grid[BUFFER_HEIGHT as int - 1][0] == (ScreenChar {
            ascii_character: byte,
            color_code: s.color,
        }),
        after_byte(s, byte).column == 1,
        forall|r: int|
            0 <= r < BUFFER_HEIGHT as int - 1 ==> #[trigger] after_byte(s, byte).grid[r] == s.grid[
                r + 1],
{
    lemma_scroll_preserves_content(s);
}

/// Writing exactly one line's width of printable bytes from column 0 and
/// then one more printable byte: the extra byte appears at column 0 of the
/// new bottom row, and the row the first `BUFFER_WIDTH` bytes filled has
/// shifted up to the row above it.
pub proof fn lemma_full_line_then_wrap(s: ConsoleState, bs: Seq<u8>, byte: u8)
    requires
        s.wf(),
        s.column == 0,
        bs.len() == BUFFER_WIDTH,
        forall|j: int| 0 <= j < bs.len() ==> printable(#[trigger] bs[j]),
        printable(byte),
    ensures
        after_bytes(s, bs.push(byte)).grid[BUFFER_HEIGHT as int - 1][0] == (ScreenChar {
            ascii_character: byte,
            color_code: s.color,
        }),
        after_bytes(s, bs.push(byte)).column == 1,
        after_bytes(s, bs.push(byte)).grid[BUFFER_HEIGHT as int - 2] == after_bytes(
            s,
            bs,
        ).grid[BUFFER_HEIGHT as int - 1],
{
    lemma_printables_fill_row(s, bs);
    lemma_after_bytes_wf(s, bs);
    assert(bs.push(byte).drop_last() =~= bs);
    assert(bs.push(byte).last() == byte);
    lemma_wrap(after_bytes(s, bs), byte);
}

} // verus!
