use vstd::prelude::*;

verus! {

/// Whether the program ends after this frame. The window's close request is
/// only heeded while the cursor is on the window; otherwise the earlier
/// decision stands.
pub fn closes_after_frame(closing: bool, cursor_on_screen: bool, close_requested: bool) -> (r: bool)
    ensures
        r == if cursor_on_screen { close_requested } else { closing },
{
    if cursor_on_screen {
        close_requested
    } else {
        closing
    }
}

} // verus!
