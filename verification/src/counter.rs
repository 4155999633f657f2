//! The counter of the single-threaded page.

use vstd::prelude::*;
use crate::text::decimal_text;

verus! {

/// `n` in decimal, with a minus sign if it is negative.
pub open spec fn signed_numeral(n: int) -> Seq<char> {
    if n < 0 {
        "-"@ + crate::text::numeral((-n) as nat, 10)
    } else {
        crate::text::numeral(n as nat, 10)
    }
}

/// The count after a click.
pub open spec fn after_click(count: int) -> int {
    count * 2
}

/// The counter behind the button.
#[derive(Debug, Clone, Copy, PartialEq, Eq, Structural)]
pub struct Counter {
    pub count: i32,
}

impl Counter {
    /// A counter as the page starts with it.
    pub fn new() -> (counter: Self)
        ensures
            counter.count == 0,
    {
        Counter { count: 0 }
    }

    /// A click doubles the count and gives the text to show.
    pub fn click(&mut self) -> (shown: String)
        requires
            i32::MIN <= old(self).count * 2 <= i32::MAX,
        ensures
            final(self).count == old(self).count * 2,
            final(self).count == after_click(old(self).count as int),
            shown@ == signed_numeral(final(self).count as int),
    {
        self.count = self.count * 2;
        if self.count < 0 {
            "-".to_owned().concat(decimal_text((-(self.count as i64)) as u64).as_str())
        } else {
            decimal_text(self.count as u64)
        }
    }
}

/// However often the button was clicked, the count of a page is zero: doubling never gets it off
/// the ground, nor out of range.
pub proof fn law_count_stays_zero(counts: Seq<int>, clicks: int)
    requires
        0 <= clicks < counts.len(),
        counts[0] == 0,
        forall|i: int| 1 <= i < counts.len() ==> #[trigger] counts[i] == counts[i - 1] * 2,
    ensures
        counts[clicks] == 0,
    decreases clicks,
{
    if clicks > 0 {
        law_count_stays_zero(counts, clicks - 1);
        assert(counts[clicks] == counts[clicks - 1] * 2);
    }
}

/// A count is shown with its decimal digits; a negative one has a minus sign before the digits of
/// its opposite.
pub proof fn law_shown_counts(n: nat)
    ensures
        signed_numeral(n as int) == crate::text::numeral(n, 10),
        n > 0 ==> signed_numeral(-(n as int)) == seq!['-'] + crate::text::numeral(n, 10),
{
    reveal_strlit("-");
    assert("-"@ =~= seq!['-']);
}

/// A click adds the count to itself.
pub proof fn law_a_click_doubles(count: int)
    ensures
        after_click(count) == count + count,
        after_click(0) == 0,
{
}

} // verus!
