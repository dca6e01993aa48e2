//! The scroll-view offset of a terminal and how key events move it.
//!
//! The offset counts rows back from the live output: zero shows the live
//! output, larger values show older rows of scrollback.

use vstd::prelude::*;

verus! {

/// What a key means to the scroll view.
#[derive(Clone, Copy, Debug, PartialEq, Eq, Structural)]
pub enum ScrollKey {
    UpArrow,
    DownArrow,
    Escape,
    PageUp,
    PageDown,
    /// Any key that the scroll view does not react to.
    Other,
}

/// The largest offset that a move may lead to: the rows of scrollback
/// beyond the viewport, less one; zero when scrollback does not exceed the
/// viewport.
pub open spec fn max_offset(scrollback_rows: int, physical_rows: int) -> int {
    if scrollback_rows > physical_rows {
        scrollback_rows - physical_rows - 1
    } else {
        0
    }
}

/// Where a key event would move the view to, before any clamping.
///
/// An arrow key or Escape, pressed or released, jumps to the live output.
/// Shift+PageUp, pressed, goes half a viewport back; Shift+PageDown,
/// pressed, half a viewport forward, and not past the live output. Nothing
/// else moves the view.
pub open spec fn moved(
    offset: int,
    key: ScrollKey,
    shift: bool,
    is_down: bool,
    physical_rows: int,
) -> int {
    match key {
        ScrollKey::UpArrow | ScrollKey::DownArrow | ScrollKey::Escape => 0,
        ScrollKey::PageUp => if is_down && shift {
            offset + physical_rows / 2
        } else {
            offset
        },
        ScrollKey::PageDown => if is_down && shift {
            if offset >= physical_rows / 2 {
                offset - physical_rows / 2
            } else {
                0
            }
        } else {
            offset
        },
        ScrollKey::Other => offset,
    }
}

/// The offset after a key event: where the key moves the view to, brought
/// back to [`max_offset`] if it lies beyond. A key that does not move the
/// view leaves the offset as it is, clamped or not.
pub open spec fn scrolled(
    offset: int,
    key: ScrollKey,
    shift: bool,
    is_down: bool,
    scrollback_rows: int,
    physical_rows: int,
) -> int {
    let target = moved(offset, key, shift, is_down, physical_rows);
    if target == offset {
        offset
    } else if target > max_offset(scrollback_rows, physical_rows) {
        max_offset(scrollback_rows, physical_rows)
    } else {
        target
    }
}

/// Computes [`max_offset`], saturating where scrollback is small.
pub fn largest_offset(scrollback_rows: usize, physical_rows: usize) -> (limit: usize)
    ensures
        limit == max_offset(scrollback_rows as int, physical_rows as int),
{
    scrollback_rows.saturating_sub(1).saturating_sub(physical_rows)
}

/// Computes [`scrolled`].
pub fn scroll_offset_after(
    offset: usize,
    key: ScrollKey,
    shift: bool,
    is_down: bool,
    scrollback_rows: usize,
    physical_rows: usize,
) -> (result: usize)
    ensures
        result == scrolled(
            offset as int,
            key,
            shift,
            is_down,
            scrollback_rows as int,
            physical_rows as int,
        ),
{
    let limit = largest_offset(scrollback_rows, physical_rows);
    let half = physical_rows / 2;
    match key {
        ScrollKey::UpArrow | ScrollKey::DownArrow | ScrollKey::Escape => 0,
        ScrollKey::PageUp => {
            if !(is_down && shift) || half == 0 {
                offset
            } else if offset >= limit || half >= limit - offset {
                limit
            } else {
                offset + half
            }
        },
        ScrollKey::PageDown => {
            if !(is_down && shift) || half == 0 || offset == 0 {
                offset
            } else {
                let target = offset.saturating_sub(half);
                if target > limit {
                    limit
                } else {
                    target
                }
            }
        },
        ScrollKey::Other => offset,
    }
}

/// An arrow key or Escape brings the view back to the live output, from
/// any offset, pressed or released, whatever the modifiers and the sizes.
pub proof fn law_arrows_and_escape_show_live_output(
    offset: int,
    key: ScrollKey,
    shift: bool,
    is_down: bool,
    scrollback_rows: int,
    physical_rows: int,
)
    requires
        0 <= offset,
        0 <= scrollback_rows,
        0 <= physical_rows,
        key == ScrollKey::UpArrow || key == ScrollKey::DownArrow || key == ScrollKey::Escape,
    ensures
        scrolled(offset, key, shift, is_down, scrollback_rows, physical_rows) == 0,
{
}

/// Shift+PageUp goes half a viewport back, as far as [`max_offset`] lets
/// it, and a Shift+PageDown after it goes half a viewport forward, as far as
/// the live output. This holds for every viewport height and every
/// scrollback at least as large, with one exception: a viewport of fewer
/// than two rows has no half to move by, so a press leaves the offset as it
/// is; for such a viewport the offset has to lie within [`max_offset`]
/// beforehand.
pub proof fn law_page_up_then_page_down(offset: int, scrollback_rows: int, physical_rows: int)
    requires
        0 <= offset,
        0 <= physical_rows <= scrollback_rows,
        physical_rows >= 2 || offset <= max_offset(scrollback_rows, physical_rows),
    ensures
        ({
            let limit = max_offset(scrollback_rows, physical_rows);
            let half = physical_rows / 2;
            let up = scrolled(
                offset,
                ScrollKey::PageUp,
                true,
                true,
                scrollback_rows,
                physical_rows,
            );
            let down = scrolled(
                up,
                ScrollKey::PageDown,
                true,
                true,
                scrollback_rows,
                physical_rows,
            );
            &&& up == if offset + half <= limit {
                offset + half
            } else {
                limit
            }
            &&& 0 <= up <= limit
            &&& down == if up >= half {
                up - half
            } else {
                0
            }
            &&& 0 <= down <= up
        }),
{
}

/// A key event never leads beyond the rows that scrollback has above the
/// viewport: an offset of at most `scrollback_rows - physical_rows` (zero
/// when the viewport is the larger) stays so.
pub proof fn law_offset_stays_in_scrollback(
    offset: int,
    key: ScrollKey,
    shift: bool,
    is_down: bool,
    scrollback_rows: int,
    physical_rows: int,
)
    requires
        0 <= physical_rows,
        0 <= scrollback_rows,
        0 <= offset,
        offset <= if scrollback_rows > physical_rows {
            scrollback_rows - physical_rows
        } else {
            0
        },
    ensures
        ({
            let after = scrolled(offset, key, shift, is_down, scrollback_rows, physical_rows);
            0 <= after <= if scrollback_rows > physical_rows {
                scrollback_rows - physical_rows
            } else {
                0
            }
        }),
{
}

} // verus!
