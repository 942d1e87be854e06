use vstd::prelude::*;

verus! {

/// Bounds-checked access to element `index` of a kernel-side collection that
/// holds `count` elements: `fetch` materialises one element and is called only
/// for an index in bounds.
pub fn get_checked<T, F: Fn(usize) -> T>(count: usize, index: usize, fetch: &F) -> (r: Option<T>)
    requires
        index < count ==> fetch.requires((index,)),
    ensures
        index >= count ==> r is None,
        index < count ==> (r matches Some(v) && fetch.ensures((index,), v)),
{
    if index >= count {
        return None;
    }
    Some(fetch(index))
}

/// Materialises every element of a kernel-side collection that holds `count`
/// elements, in index order.
pub fn collect_all<T, F: Fn(usize) -> T>(count: usize, fetch: &F) -> (r: Vec<T>)
    requires
        forall|i: usize| i < count ==> fetch.requires((i,)),
    ensures
        r@.len() == count,
        forall|i: int| 0 <= i < count ==> fetch.ensures((i as usize,), #[trigger] r@[i]),
{
    let mut items: Vec<T> = Vec::new();
    let mut i: usize = 0;
    while i < count
        invariant
            i <= count,
            items@.len() == i,
            forall|k: usize| k < count ==> fetch.requires((k,)),
            forall|k: int| 0 <= k < i ==> fetch.ensures((k as usize,), #[trigger] items@[k]),
        decreases count - i,
    {
        match get_checked(count, i, fetch) {
            Some(item) => items.push(item),
            None => {},
        }
        i = i + 1;
    }
    items
}

/// Splits a list of pairs into the two parallel arrays that the kernel takes,
/// keeping the order of the pairs.
pub fn unzip_pairs<A: Copy, B: Copy>(pairs: &[(A, B)]) -> (r: (Vec<A>, Vec<B>))
    ensures
        r.0@.len() == pairs@.len(),
        r.1@.len() == pairs@.len(),
        forall|i: int| 0 <= i < pairs@.len() ==> #[trigger] r.0@[i] == pairs@[i].0 && r.1@[i] == pairs@[i].1,
{
    let mut firsts: Vec<A> = Vec::with_capacity(pairs.len());
    let mut seconds: Vec<B> = Vec::with_capacity(pairs.len());
    let mut i: usize = 0;
    while i < pairs.len()
        invariant
            i <= pairs@.len(),
            firsts@.len() == i,
            seconds@.len() == i,
            forall|k: int| 0 <= k < i ==> #[trigger] firsts@[k] == pairs@[k].0 && seconds@[k] == pairs@[k].1,
        decreases pairs@.len() - i,
    {
        let (a, b) = pairs[i];
        firsts.push(a);
        seconds.push(b);
        i = i + 1;
    }
    (firsts, seconds)
}

} // verus!
