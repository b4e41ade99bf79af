//! Counting the frames drawn in each second.

use vstd::prelude::*;

verus! {

/// One frame more after `counter` frames. While the second lasts the count
/// grows by one and nothing is shown. Once the second has passed, the count
/// with this frame is the one to show, and counting starts again at zero.
pub fn frame(counter: u32, second_passed: bool) -> (next: (u32, Option<u32>))
    requires
        counter < u32::MAX,
    ensures
        next == (if second_passed {
            (0u32, Some((counter + 1) as u32))
        } else {
            ((counter + 1) as u32, None::<u32>)
        }),
{
    let counted = counter + 1;
    if second_passed {
        (0, Some(counted))
    } else {
        (counted, None)
    }
}

} // verus!
