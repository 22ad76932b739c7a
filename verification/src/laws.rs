//! Laws of printing, proved of the model that the writer's contracts use.

use crate::buffer::{Grid, BUFFER_HEIGHT, BUFFER_WIDTH};
use crate::cell::ScreenChar;
use crate::color::ColorCode;
use crate::model::{
    blank_row, displayed_bytes, is_printable, scrolled, WriterView, LINE_FEED, PLACEHOLDER,
};
use vstd::prelude::*;

verus! {

/// No byte of `bytes` ends a line.
pub open spec fn no_line_feed(bytes: Seq<u8>) -> bool {
    forall|i: int| 0 <= i < bytes.len() ==> bytes[i] != LINE_FEED
}

/// A row in which `bytes` stand from `column` on, in the given colors; the
/// cells before and after them are those of `row`.
pub open spec fn row_with_bytes(
    row: Seq<ScreenChar>,
    column: int,
    bytes: Seq<u8>,
    color_code: ColorCode,
) -> Seq<ScreenChar> {
    Seq::new(
        BUFFER_WIDTH as nat,
        |col: int|
            if column <= col < column + bytes.len() {
                ScreenChar { ascii_character: bytes[col - column], color_code }
            } else {
                row[col]
            },
    )
}

/// Printing keeps the column on the row or just past its end, and the grid
/// in shape.
pub proof fn lemma_write_byte_wf(before: WriterView, byte: u8)
    requires
        before.wf(),
    ensures
        before.write_byte(byte).wf(),
        before.write_byte(byte).color_code == before.color_code,
{
}

/// Printing bytes keeps the column on the row or just past its end, the
/// grid in shape and the colors as they are.
pub proof fn lemma_write_bytes_wf(before: WriterView, bytes: Seq<u8>)
    requires
        before.wf(),
    ensures
        before.write_bytes(bytes).wf(),
        before.write_bytes(bytes).color_code == before.color_code,
    decreases bytes.len(),
{
    if bytes.len() > 0 {
        lemma_write_bytes_wf(before, bytes.drop_last());
        lemma_write_byte_wf(before.write_bytes(bytes.drop_last()), bytes.last());
    }
}

/// A byte is printed by one cell write or by one scroll, never by both and
/// never by neither: a line feed scrolls the display and writes no cell;
/// any other byte, while the bottom row has room, is written into the cell
/// at the column and moves no other cell.
pub proof fn lemma_write_byte_writes_or_scrolls(before: WriterView, byte: u8)
    requires
        before.wf(),
        byte == LINE_FEED || before.column < BUFFER_WIDTH,
    ensures
        (before.write_byte(byte) == before.put(byte)) != (before.write_byte(byte)
            == before.scroll_and_reset()),
        byte == LINE_FEED <==> before.write_byte(byte) == before.scroll_and_reset(),
        byte != LINE_FEED ==> before.write_byte(byte).screen[BUFFER_HEIGHT - 1][before.column as int]
            == (ScreenChar { ascii_character: byte, color_code: before.color_code }),
        byte != LINE_FEED ==> forall|row: int, col: int|
            0 <= row < BUFFER_HEIGHT && 0 <= col < BUFFER_WIDTH && (row != BUFFER_HEIGHT - 1 || col
                != before.column) ==> #[trigger] before.write_byte(byte).screen[row][col]
                == before.screen[row][col],
{
}

/// A cell shows a glyph of the printable range or the placeholder.
pub open spec fn is_showable(cell: ScreenChar) -> bool {
    is_printable(cell.ascii_character) || cell.ascii_character == PLACEHOLDER
}

/// Every cell of the grid shows a glyph of the printable range or the
/// placeholder.
pub open spec fn all_showable(screen: Grid) -> bool {
    forall|row: int, col: int|
        0 <= row < BUFFER_HEIGHT && 0 <= col < BUFFER_WIDTH ==> is_showable(
            #[trigger] screen[row][col],
        )
}

/// Printing bytes that are printable, line feeds or the placeholder on a
/// display that shows nothing else leaves a display that shows nothing
/// else.
proof fn lemma_write_bytes_showable(before: WriterView, bytes: Seq<u8>)
    requires
        before.wf(),
        all_showable(before.screen),
        forall|i: int|
            0 <= i < bytes.len() ==> is_printable(bytes[i]) || bytes[i] == LINE_FEED || bytes[i]
                == PLACEHOLDER,
    ensures
        all_showable(before.write_bytes(bytes).screen),
    decreases bytes.len(),
{
    if bytes.len() > 0 {
        let front = bytes.drop_last();
        lemma_write_bytes_showable(before, front);
        lemma_write_bytes_wf(before, front);
    }
}

/// A string never puts a byte on the display that the hardware has no
/// glyph for: on a display whose cells all show printable bytes or the
/// placeholder, printing any string leaves such a display.
pub proof fn lemma_write_string_showable(before: WriterView, bytes: Seq<u8>)
    requires
        before.wf(),
        all_showable(before.screen),
    ensures
        all_showable(before.write_string(bytes).screen),
{
    lemma_write_bytes_showable(before, displayed_bytes(bytes));
}

/// Printing one sequence of bytes and then another is printing the two
/// joined.
pub proof fn lemma_write_bytes_concat(before: WriterView, first: Seq<u8>, second: Seq<u8>)
    ensures
        before.write_bytes(first + second) == before.write_bytes(first).write_bytes(second),
    decreases second.len(),
{
    if second.len() == 0 {
        assert(first + second =~= first);
    } else {
        lemma_write_bytes_concat(before, first, second.drop_last());
        assert((first + second).drop_last() =~= first + second.drop_last());
        assert((first + second).last() == second.last());
    }
}

/// Printing one string and then another is printing the two joined.
pub proof fn lemma_write_string_concat(before: WriterView, first: Seq<u8>, second: Seq<u8>)
    ensures
        before.write_string(first + second) == before.write_string(first).write_string(second),
{
    assert(displayed_bytes(first + second) =~= displayed_bytes(first) + displayed_bytes(second));
    lemma_write_bytes_concat(before, displayed_bytes(first), displayed_bytes(second));
}

/// A byte of a string that is neither printable nor a line feed is printed
/// as the placeholder, in its own place: the string prints as it would
/// with the placeholder written there.
pub proof fn lemma_write_string_substitutes(before: WriterView, bytes: Seq<u8>, i: int)
    requires
        0 <= i < bytes.len(),
        !is_printable(bytes[i]),
        bytes[i] != LINE_FEED,
    ensures
        displayed_bytes(bytes)[i] == PLACEHOLDER,
        before.write_string(bytes) == before.write_string(bytes.update(i, PLACEHOLDER)),
        before.write_string(bytes) == before.write_string(bytes.take(i)).write_byte(
            PLACEHOLDER,
        ).write_string(bytes.skip(i + 1)),
{
    assert(displayed_bytes(bytes) =~= displayed_bytes(bytes.update(i, PLACEHOLDER)));
    let head = bytes.take(i);
    let tail = bytes.skip(i + 1);
    let one = seq![bytes[i]];
    assert(bytes =~= head + one + tail);
    lemma_write_string_concat(before, head + one, tail);
    lemma_write_string_concat(before, head, one);
    let mid = before.write_string(head);
    assert(displayed_bytes(one) =~= seq![PLACEHOLDER]);
    assert(mid.write_bytes(seq![PLACEHOLDER]) == mid.write_byte(PLACEHOLDER)) by {
        reveal_with_fuel(WriterView::write_bytes, 2);
    }
}

/// Bytes that fit into what is left of the bottom row, none of them a line
/// feed, go into it one after the other from the column on. Nothing
/// scrolls and no other cell changes.
pub proof fn lemma_write_bytes_in_row(before: WriterView, bytes: Seq<u8>)
    requires
        before.wf(),
        no_line_feed(bytes),
        before.column + bytes.len() <= BUFFER_WIDTH,
    ensures
        before.write_bytes(bytes) == (WriterView {
            column: before.column + bytes.len(),
            screen: before.screen.update(
                BUFFER_HEIGHT - 1,
                row_with_bytes(
                    before.screen[BUFFER_HEIGHT - 1],
                    before.column as int,
                    bytes,
                    before.color_code,
                ),
            ),
            ..before
        }),
    decreases bytes.len(),
{
    let bottom = BUFFER_HEIGHT - 1;
    let expected = before.screen.update(
        bottom,
        row_with_bytes(before.screen[bottom], before.column as int, bytes, before.color_code),
    );
    if bytes.len() == 0 {
        assert(expected =~~= before.screen);
    } else {
        let front = bytes.drop_last();
        lemma_write_bytes_in_row(before, front);
        let mid = before.write_bytes(front);
        assert(mid.write_byte(bytes.last()) == mid.put(bytes.last()));
        assert(mid.put(bytes.last()).screen =~~= expected);
    }
}

/// On a full bottom row, printing bytes of which the first is no line feed
/// starts with a scroll.
proof fn lemma_full_row_scrolls_first(before: WriterView, bytes: Seq<u8>)
    requires
        before.column >= BUFFER_WIDTH,
        bytes.len() > 0,
        bytes[0] != LINE_FEED,
    ensures
        before.write_bytes(bytes) == before.scroll_and_reset().write_bytes(bytes),
    decreases bytes.len(),
{
    let front = bytes.drop_last();
    if front.len() == 0 {
        assert(before.write_bytes(front) == before);
        assert(before.scroll_and_reset().write_bytes(front) == before.scroll_and_reset());
    } else {
        lemma_full_row_scrolls_first(before, front);
    }
}

/// A line longer than the room in the bottom row wraps once. Of bytes that
/// hold no line feed, more than the row has room for and at most a full row
/// more, those that fit fill the row; then the display scrolls, once; then
/// the others go into the new bottom row from its left end on.
pub proof fn lemma_long_line_wraps_once(before: WriterView, bytes: Seq<u8>)
    requires
        before.wf(),
        no_line_feed(bytes),
        BUFFER_WIDTH - before.column < bytes.len() <= 2 * BUFFER_WIDTH - before.column,
    ensures
        ({
            let room = BUFFER_WIDTH - before.column;
            let filled = before.write_bytes(bytes.take(room));
            let after = before.write_bytes(bytes);
            &&& filled.column == BUFFER_WIDTH
            &&& filled.screen == before.screen.update(
                BUFFER_HEIGHT - 1,
                row_with_bytes(
                    before.screen[BUFFER_HEIGHT - 1],
                    before.column as int,
                    bytes.take(room),
                    before.color_code,
                ),
            )
            &&& after == filled.scroll_and_reset().write_bytes(bytes.skip(room))
            &&& after.column == bytes.len() - room
            &&& after.screen == scrolled(filled.screen, before.color_code).update(
                BUFFER_HEIGHT - 1,
                row_with_bytes(blank_row(before.color_code), 0, bytes.skip(room), before.color_code),
            )
        }),
{
    let room = BUFFER_WIDTH - before.column;
    let head = bytes.take(room);
    let tail = bytes.skip(room);
    assert(bytes =~= head + tail);
    lemma_write_bytes_concat(before, head, tail);
    lemma_write_bytes_in_row(before, head);
    let filled = before.write_bytes(head);
    lemma_full_row_scrolls_first(filled, tail);
    let fresh = filled.scroll_and_reset();
    lemma_write_bytes_in_row(fresh, tail);
}

} // verus!
