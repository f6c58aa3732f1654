use vstd::prelude::*;

verus! {

/// Width of the single-line input box for a frame `frame_width` columns wide:
/// the frame is taken as at least three columns, less three.
pub fn input_area_width(frame_width: u16) -> (r: u16)
    ensures
        r == (if frame_width < 3 { 3 } else { frame_width }) - 3,
{
    if frame_width < 3 {
        0
    } else {
        frame_width - 3
    }
}

/// Column of the caret from the input box's left edge: the visible cursor
/// offset past the scroll offset, plus one for the border.
pub fn caret_column(visual_cursor: usize, scroll: usize) -> (r: usize)
    requires
        visual_cursor < usize::MAX,
    ensures
        r == (if visual_cursor < scroll { scroll } else { visual_cursor }) - scroll + 1,
{
    let shown = if visual_cursor < scroll {
        scroll
    } else {
        visual_cursor
    };
    shown - scroll + 1
}

} // verus!
