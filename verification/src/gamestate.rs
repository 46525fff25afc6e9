use vstd::prelude::*;

verus! {

fn contains_id(v: &Vec<u32>, id: u32) -> (r: bool)
    ensures
        r == v@.contains(id),
{
    let mut i: usize = 0;
    while i < v.len()
        invariant
            0 <= i <= v.len(),
            forall|j: int| 0 <= j < i ==> v@[j] != id,
        decreases v.len() - i,
    {
        if v[i] == id {
            return true;
        }
        i = i + 1;
    }
    false
}

/// The entities of `a` that are not in `b`, in the order of `a`.
pub open spec fn ids_not_in(a: Seq<u32>, b: Seq<u32>) -> Seq<u32> {
    a.filter(not_in(b))
}

pub open spec fn not_in(b: Seq<u32>) -> spec_fn(u32) -> bool {
    |id: u32| !b.contains(id)
}

fn difference(a: &Vec<u32>, b: &Vec<u32>) -> (r: Vec<u32>)
    ensures
        r@ == ids_not_in(a@, b@),
{
    let mut out: Vec<u32> = Vec::new();
    let mut i: usize = 0;
    while i < a.len()
        invariant
            0 <= i <= a.len(),
            out@ == ids_not_in(a@.take(i as int), b@),
        decreases a.len() - i,
    {
        let id = a[i];
        proof {
            assert(a@.take(i + 1).drop_last() =~= a@.take(i as int));
            reveal_with_fuel(Seq::filter, 1);
        }
        if !contains_id(b, id) {
            out.push(id);
        }
        i = i + 1;
    }
    proof {
        assert(a@.take(a.len() as int) =~= a@);
    }
    out
}

/// Which entities came into view and which left it between two frames, given the entities
/// visible on the previous frame and those visible now: entered are those visible now and not
/// before (in the order of `visible`), exited those visible before and not now (in the order of
/// `previously_visible`).
pub fn visibility_changes(previously_visible: &Vec<u32>, visible: &Vec<u32>) -> (r: (Vec<u32>, Vec<u32>))
    ensures
        r.0@ == ids_not_in(visible@, previously_visible@),
        r.1@ == ids_not_in(previously_visible@, visible@),
{
    (difference(visible, previously_visible), difference(previously_visible, visible))
}

/// No entity both enters and leaves the view in the same frame; every entity that entered is
/// visible now, and every one that left was visible before.
pub proof fn lemma_visibility_changes_disjoint(previous: Seq<u32>, visible: Seq<u32>, id: u32)
    ensures
        !(ids_not_in(visible, previous).contains(id) && ids_not_in(previous, visible).contains(id)),
        ids_not_in(visible, previous).contains(id) ==> visible.contains(id) && !previous.contains(id),
        ids_not_in(previous, visible).contains(id) ==> previous.contains(id) && !visible.contains(id),
{
    if ids_not_in(visible, previous).contains(id) {
        visible.lemma_filter_contains_rev(not_in(previous), id);
        let j = choose|j: int| 0 <= j < ids_not_in(visible, previous).len() && ids_not_in(visible, previous)[j] == id;
        visible.lemma_filter_pred(not_in(previous), j);
    }
    if ids_not_in(previous, visible).contains(id) {
        previous.lemma_filter_contains_rev(not_in(visible), id);
        let j = choose|j: int| 0 <= j < ids_not_in(previous, visible).len() && ids_not_in(previous, visible)[j] == id;
        previous.lemma_filter_pred(not_in(visible), j);
    }
}

} // verus!
