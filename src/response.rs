use vstd::prelude::*;
use vstd::string::StringExecFns;

use crate::progress::ShaiRequestProgress;
use crate::text::{count_lines, line_count};

verus! {

/// One answer pane: the text received so far, how far it is scrolled and the
/// spinner of its outstanding request.
#[derive(Clone, Debug)]
pub struct Response {
    pub text: String,
    pub scroll: usize,
    pub request_state: ShaiRequestProgress,
}

/// The largest scroll offset of a text with `lines` lines.
pub open spec fn scroll_bound(lines: int) -> int {
    if lines - 1 > 1 {
        lines - 1
    } else {
        1
    }
}

/// Half a page of a text with `lines` lines, at least one line.
pub open spec fn half_page(lines: int) -> int {
    if lines / 2 > 1 {
        lines / 2
    } else {
        1
    }
}

/// `x` kept within `[lo, hi]`.
pub open spec fn clamp(x: int, lo: int, hi: int) -> int {
    if x < lo {
        lo
    } else if x > hi {
        hi
    } else {
        x
    }
}

/// The offset after scrolling half a page down or up from `offset` in a text
/// with `lines` lines.
pub open spec fn scrolled(offset: int, lines: int, down: bool) -> int {
    let delta = if down {
        half_page(lines)
    } else {
        -half_page(lines)
    };
    clamp(offset + delta, 0, scroll_bound(lines))
}

impl Default for Response {
    fn default() -> (r: Response)
        ensures
            r.is_empty_pane(),
    {
        Response { text: String::new(), scroll: 0, request_state: ShaiRequestProgress::Idle }
    }
}

impl Response {
    /// An empty pane at the top, with no request.
    pub open spec fn is_empty_pane(&self) -> bool {
        &&& self.text@.len() == 0
        &&& self.scroll == 0
        &&& self.request_state == ShaiRequestProgress::Idle
    }

    /// Clears the pane, as a new request for it begins.
    pub fn reset(&mut self)
        ensures
            final(self).is_empty_pane(),
    {
        *self = Response::default();
    }

    /// Adds a fragment of the answer at the end of the text.
    pub fn append(&mut self, fragment: &str)
        ensures
            final(self).text@ == old(self).text@ + fragment@,
            final(self).scroll == old(self).scroll,
            final(self).request_state == old(self).request_state,
    {
        self.text.append(fragment);
    }

    /// Scrolls half a page down or up, staying between the top and the last
    /// line but one (or the second line, for short texts).
    pub fn scroll_by(&mut self, down: bool)
        ensures
            final(self).scroll as int == scrolled(
                old(self).scroll as int,
                line_count(old(self).text@) as int,
                down,
            ),
            final(self).text == old(self).text,
            final(self).request_state == old(self).request_state,
    {
        let lines = count_lines(self.text.as_str());
        let half: usize = if lines / 2 > 1 {
            lines / 2
        } else {
            1
        };
        let bound: usize = if lines > 2 {
            lines - 1
        } else {
            1
        };
        let off = self.scroll;
        let next: usize = if down {
            if off >= bound || bound - off <= half {
                bound
            } else {
                off + half
            }
        } else {
            if off <= half {
                0
            } else if off - half > bound {
                bound
            } else {
                off - half
            }
        };
        self.scroll = next;
    }

    /// Moves the spinner one phase on, while the request is outstanding.
    pub fn tick(&mut self)
        ensures
            final(self).request_state == old(self).request_state.spec_next_state(),
            final(self).text == old(self).text,
            final(self).scroll == old(self).scroll,
    {
        self.request_state = self.request_state.next_state();
    }

    /// Stops the spinner, as the request ends.
    pub fn settle(&mut self)
        ensures
            final(self).request_state == ShaiRequestProgress::Idle,
            final(self).text == old(self).text,
            final(self).scroll == old(self).scroll,
    {
        self.request_state = ShaiRequestProgress::Idle;
    }
}

/// Whatever scroll keys are pressed, the offset stays within the bound of
/// the text, provided it started there.
pub proof fn lemma_scroll_stays_in_bounds(offset: int, lines: nat, downs: Seq<bool>)
    requires
        0 <= offset <= scroll_bound(lines as int),
    ensures
        0 <= scroll_after(offset, lines as int, downs) <= scroll_bound(lines as int),
    decreases downs.len(),
{
    if downs.len() > 0 {
        lemma_scroll_stays_in_bounds(offset, lines, downs.drop_last());
    }
}

/// The offset after the scroll keys `downs` (true for down), in order.
pub open spec fn scroll_after(offset: int, lines: int, downs: Seq<bool>) -> int
    decreases downs.len(),
{
    if downs.len() == 0 {
        offset
    } else {
        scrolled(scroll_after(offset, lines, downs.drop_last()), lines, downs.last())
    }
}

} // verus!
