//! Output buffers, sized before they are filled.
use vstd::prelude::*;

verus! {

/// `String::with_capacity` of std: the string it returns is empty, whatever
/// room it has. The capacity is kept to what std accepts without a panic.
#[verifier::external_body]
fn string_with_capacity(capacity: usize) -> (s: String)
    requires
        capacity <= isize::MAX,
    ensures
        s@ == Seq::<char>::empty(),
{
    String::with_capacity(capacity)
}

/// The sum of a length so far and one more, or nothing where either is
/// missing or the sum does not fit.
pub(crate) fn add_len(so_far: Option<usize>, more: usize) -> (sum: Option<usize>)
    ensures
        sum == match so_far {
            Some(n) if n + more <= usize::MAX => Some((n + more) as usize),
            _ => None,
        },
{
    match so_far {
        Some(n) => n.checked_add(more),
        None => None,
    }
}

/// An empty buffer with room for `capacity` bytes; where no capacity is
/// given, or more than can be asked for, one that grows as it is filled.
pub(crate) fn buffer(capacity: Option<usize>) -> (s: String)
    ensures
        s@ == Seq::<char>::empty(),
{
    match capacity {
        Some(n) => {
            if n <= isize::MAX as usize {
                string_with_capacity(n)
            } else {
                String::new()
            }
        },
        None => String::new(),
    }
}

} // verus!
