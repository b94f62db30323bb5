use vstd::prelude::*;

verus! {

/// Copies a vector of plain values, element by element.
pub fn copy_of<T: Copy>(items: &Vec<T>) -> (r: Vec<T>)
    ensures
        r@ == items@,
{
    let mut out: Vec<T> = Vec::new();
    let mut i: usize = 0;
    while i < items.len()
        invariant
            i <= items.len(),
            out@ == items@.take(i as int),
        decreases items.len() - i,
    {
        out.push(items[i]);
        assert(items@.take(i as int).push(items@[i as int]) =~= items@.take(i as int + 1));
        i += 1;
    }
    assert(items@.take(i as int) =~= items@);
    out
}

} // verus!
