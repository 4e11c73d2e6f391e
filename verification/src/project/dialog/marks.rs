use vstd::prelude::*;

verus! {

/// Position `i` is marked, and no position before it is.
pub open spec fn is_first_marked(marks: Seq<bool>, i: int) -> bool {
    &&& 0 <= i < marks.len()
    &&& marks[i]
    &&& forall|j: int| 0 <= j < i ==> !marks[j]
}

/// The first marked position, if any position is marked.
pub open spec fn first_marked(marks: Seq<bool>) -> Option<int> {
    if exists|i: int| is_first_marked(marks, i) {
        Some(choose|i: int| is_first_marked(marks, i))
    } else {
        None
    }
}

/// A marked position with no marked position before it is the first one.
pub proof fn lemma_first_marked_at(marks: Seq<bool>, i: int)
    requires
        is_first_marked(marks, i),
    ensures
        first_marked(marks) == Some(i),
{
    let k = choose|k: int| is_first_marked(marks, k);
    assert(is_first_marked(marks, k));
    if k < i {
        assert(!marks[k]);
    } else if i < k {
        assert(!marks[i]);
    }
}

/// Where a position is marked, one at or before it is the first.
proof fn lemma_some_first(marks: Seq<bool>, n: int)
    requires
        0 <= n < marks.len(),
        marks[n],
    ensures
        exists|i: int| is_first_marked(marks, i),
    decreases n,
{
    if exists|j: int| 0 <= j < n && marks[j] {
        let j = choose|j: int| 0 <= j < n && marks[j];
        lemma_some_first(marks, j);
    } else {
        assert(is_first_marked(marks, n));
    }
}

/// There is no first marked position exactly when no position is marked.
pub proof fn lemma_first_marked_none(marks: Seq<bool>)
    ensures
        first_marked(marks) is None <==> forall|j: int| 0 <= j < marks.len() ==> !marks[j],
{
    if exists|j: int| 0 <= j < marks.len() && marks[j] {
        let j = choose|j: int| 0 <= j < marks.len() && marks[j];
        lemma_some_first(marks, j);
    }
}

/// The position of the first `true` in `marks`.
pub fn first_marked_index(marks: &Vec<bool>) -> (found: Option<usize>)
    ensures
        match found {
            Some(i) => first_marked(marks@) == Some(i as int) && is_first_marked(marks@, i as int),
            None => first_marked(marks@) is None && forall|j: int|
                0 <= j < marks.len() ==> !marks[j],
        },
{
    let mut i: usize = 0;
    while i < marks.len()
        invariant
            i <= marks.len(),
            forall|j: int| 0 <= j < i ==> !marks@[j],
        decreases marks.len() - i,
    {
        if marks[i] {
            proof {
                lemma_first_marked_at(marks@, i as int);
            }
            return Some(i);
        }
        i += 1;
    }
    proof {
        lemma_first_marked_none(marks@);
    }
    None
}

} // verus!
