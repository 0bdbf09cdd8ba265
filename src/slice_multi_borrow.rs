use vstd::prelude::*;

verus! {

/// Two mutable handles on two different elements of a slice at the same time.
pub fn get_pair_mut<T>(slice: &mut [T], index0: usize, index1: usize) -> (r: (&mut T, &mut T))
    requires
        index0 != index1,
        index0 < old(slice)@.len(),
        index1 < old(slice)@.len(),
    ensures
        *r.0 == old(slice)@[index0 as int],
        *r.1 == old(slice)@[index1 as int],
        final(slice)@ == old(slice)@.update(index0 as int, *final(r.0)).update(
            index1 as int,
            *final(r.1),
        ),
{
    if index0 < index1 {
        let (low, high) = slice.split_at_mut(index1);
        let a = &mut low[index0];
        let b = &mut high[0];
        (a, b)
    } else {
        let (low, high) = slice.split_at_mut(index0);
        let b = &mut low[index1];
        let a = &mut high[0];
        (a, b)
    }
}

} // verus!
