//! The list of runtime descriptors an authority holds: publishing replaces
//! the descriptor with the same runtime id and keeps the list ordered by
//! runtime id; clearing drops it.
use vstd::prelude::*;

use vstd::multiset::Multiset;

use crate::coordination::{descriptors_view, RuntimeDescriptor, RuntimeDescriptorView};
use crate::text::{
    lemma_seq_lt_total, lemma_seq_lt_transitive, seq_le, seq_lt, string_lt,
};

verus! {

broadcast use vstd::seq_lib::group_to_multiset_ensures;

/// `s` without the descriptors whose runtime id is `id`, in order.
pub open spec fn without_runtime(s: Seq<RuntimeDescriptorView>, id: Seq<char>) -> Seq<
    RuntimeDescriptorView,
>
    decreases s.len(),
{
    if s.len() == 0 {
        s
    } else {
        let rest = without_runtime(s.drop_last(), id);
        if s.last().runtime_id == id {
            rest
        } else {
            rest.push(s.last())
        }
    }
}

/// Runtime ids never decrease along `s`.
pub open spec fn sorted_by_runtime_id(s: Seq<RuntimeDescriptorView>) -> bool {
    forall|i: int, j: int| 0 <= i < j < s.len() ==> seq_le(s[i].runtime_id, s[j].runtime_id)
}

/// No descriptor of `without_runtime(s, id)` has runtime id `id`, and every
/// other descriptor of `s` is kept.
pub proof fn lemma_without_runtime_members(
    s: Seq<RuntimeDescriptorView>,
    id: Seq<char>,
    d: RuntimeDescriptorView,
)
    ensures
        without_runtime(s, id).contains(d) <==> (s.contains(d) && d.runtime_id != id),
    decreases s.len(),
{
    if s.len() > 0 {
        let init = s.drop_last();
        lemma_without_runtime_members(init, id, d);
        let rest = without_runtime(init, id);
        let w = without_runtime(s, id);
        if s.contains(d) && d.runtime_id != id {
            let i = choose|i: int| 0 <= i < s.len() && s[i] == d;
            if i < s.len() - 1 {
                assert(init[i] == d);
                assert(init.contains(d));
                assert(rest.contains(d));
                let k = choose|k: int| 0 <= k < rest.len() && rest[k] == d;
                if s.last().runtime_id != id {
                    assert(w[k] == d);
                } else {
                    assert(w == rest);
                }
                assert(w.contains(d));
            } else {
                assert(s.last() == d);
                assert(w == rest.push(s.last()));
                assert(w[rest.len() as int] == d);
                assert(w.contains(d));
            }
        }
        if w.contains(d) {
            let k = choose|k: int| 0 <= k < w.len() && w[k] == d;
            if s.last().runtime_id != id && k == rest.len() {
                assert(w[k] == s.last());
                assert(s[s.len() - 1] == d);
                assert(s.contains(d));
            } else {
                if s.last().runtime_id != id {
                    assert(w[k] == rest[k]);
                }
                assert(rest[k] == d);
                assert(rest.contains(d));
                let j = choose|j: int| 0 <= j < init.len() && init[j] == d;
                assert(s[j] == d);
                assert(s.contains(d));
            }
        }
    }
}

/// The descriptors of `list` whose runtime id is not `runtime_id`, in order.
pub fn retain_other_runtimes(list: &Vec<RuntimeDescriptor>, runtime_id: &String) -> (r: Vec<
    RuntimeDescriptor,
>)
    ensures
        descriptors_view(r@) == without_runtime(descriptors_view(list@), runtime_id@),
{
    let mut r: Vec<RuntimeDescriptor> = Vec::new();
    let mut i: usize = 0;
    while i < list.len()
        invariant
            i <= list@.len(),
            descriptors_view(r@) == without_runtime(
                descriptors_view(list@).take(i as int),
                runtime_id@,
            ),
        decreases list@.len() - i,
    {
        let ghost prev = r@;
        assert(descriptors_view(list@).take(i + 1).drop_last() =~= descriptors_view(list@).take(
            i as int,
        ));
        if !list[i].runtime_id.eq(runtime_id) {
            r.push(list[i].clone());
            assert(descriptors_view(r@) =~= descriptors_view(prev).push(list@[i as int]@));
        }
        i = i + 1;
    }
    assert(descriptors_view(list@).take(list@.len() as int) =~= descriptors_view(list@));
    r
}

proof fn lemma_view_insert(s: Seq<RuntimeDescriptor>, p: int, d: RuntimeDescriptor)
    requires
        0 <= p <= s.len(),
    ensures
        descriptors_view(s.insert(p, d)) =~= descriptors_view(s).insert(p, d@),
{
}

proof fn lemma_multiset_insert_at(s: Seq<RuntimeDescriptorView>, p: int, d: RuntimeDescriptorView)
    requires
        0 <= p <= s.len(),
    ensures
        s.insert(p, d).to_multiset() =~= s.to_multiset().insert(d),
{
    let t = s.insert(p, d);
    assert(t.remove(p) =~= s);
    vstd::seq_lib::to_multiset_remove(t, p);
    assert(t[p] == d);
    assert(t.contains(d));
    assert(t.to_multiset().count(d) > 0);
}

/// The first position at or after `i` whose runtime id is greater than
/// `key`, or the end of `s`.
pub open spec fn first_greater(s: Seq<RuntimeDescriptorView>, key: Seq<char>, i: int) -> int
    decreases s.len() - i,
{
    if i >= s.len() {
        s.len() as int
    } else if seq_lt(key, s[i].runtime_id) {
        i
    } else {
        first_greater(s, key, i + 1)
    }
}

/// `s` ordered by runtime id, descriptors with equal runtime ids kept in
/// the order they come in: each descriptor in turn goes after every one
/// before it whose runtime id is not greater.
pub open spec fn stable_sorted_by_runtime_id(s: Seq<RuntimeDescriptorView>) -> Seq<
    RuntimeDescriptorView,
>
    decreases s.len(),
{
    if s.len() == 0 {
        s
    } else {
        let r = stable_sorted_by_runtime_id(s.drop_last());
        r.insert(first_greater(r, s.last().runtime_id, 0), s.last())
    }
}

proof fn lemma_first_greater_at(s: Seq<RuntimeDescriptorView>, key: Seq<char>, i: int, p: int)
    requires
        0 <= i <= p <= s.len(),
        forall|j: int| i <= j < p ==> !seq_lt(key, #[trigger] s[j].runtime_id),
        p == s.len() || seq_lt(key, s[p].runtime_id),
    ensures
        first_greater(s, key, i) == p,
    decreases p - i,
{
    if i < p {
        lemma_first_greater_at(s, key, i + 1, p);
    }
}

/// Inserts `d` after every descriptor whose runtime id is not greater.
fn insert_sorted(r: &mut Vec<RuntimeDescriptor>, d: RuntimeDescriptor)
    requires
        sorted_by_runtime_id(descriptors_view(old(r)@)),
    ensures
        sorted_by_runtime_id(descriptors_view(final(r)@)),
        descriptors_view(final(r)@).to_multiset() =~= descriptors_view(old(r)@).to_multiset().insert(
            d@,
        ),
        descriptors_view(final(r)@) == descriptors_view(old(r)@).insert(
            first_greater(descriptors_view(old(r)@), d.runtime_id@, 0),
            d@,
        ),
{
    let ghost old_view = descriptors_view(r@);
    let mut p: usize = 0;
    while p < r.len() && !string_lt(&d.runtime_id, &r[p].runtime_id)
        invariant
            p <= r@.len(),
            descriptors_view(r@) == old_view,
            forall|j: int| 0 <= j < p ==> seq_le(r@[j].runtime_id@, d.runtime_id@),
            forall|j: int| 0 <= j < p ==> !seq_lt(d.runtime_id@, #[trigger] old_view[j].runtime_id),
        decreases r@.len() - p,
    {
        proof {
            lemma_seq_lt_total(d.runtime_id@, r@[p as int].runtime_id@);
        }
        p = p + 1;
    }
    proof {
        if p < r@.len() {
            assert forall|j: int| p <= j < r@.len() implies seq_lt(
                d.runtime_id@,
                r@[j].runtime_id@,
            ) by {
                if j > p {
                    assert(seq_le(old_view[p as int].runtime_id, old_view[j].runtime_id));
                    if seq_lt(r@[p as int].runtime_id@, r@[j].runtime_id@) {
                        lemma_seq_lt_transitive(
                            d.runtime_id@,
                            r@[p as int].runtime_id@,
                            r@[j].runtime_id@,
                        );
                    }
                }
            }
        }
    }
    proof {
        lemma_first_greater_at(old_view, d.runtime_id@, 0, p as int);
    }
    let ghost before = r@;
    let ghost dv = d@;
    r.insert(p, d);
    proof {
        lemma_view_insert(before, p as int, r@[p as int]);
        let nv = descriptors_view(r@);
        assert(nv =~= old_view.insert(p as int, dv));
        assert forall|i: int, j: int| 0 <= i < j < nv.len() implies seq_le(
            nv[i].runtime_id,
            nv[j].runtime_id,
        ) by {
            if i < p && j == p {
            } else if i == p && j > p {
                assert(nv[j] == old_view[j - 1]);
            } else if i < p && j > p {
                assert(nv[j] == old_view[j - 1]);
                assert(seq_le(old_view[i].runtime_id, old_view[j - 1].runtime_id));
            } else if i > p {
                assert(nv[i] == old_view[i - 1]);
                assert(nv[j] == old_view[j - 1]);
            } else {
                assert(nv[i] == old_view[i]);
                assert(nv[j] == old_view[j]);
            }
        }
        lemma_multiset_insert_at(old_view, p as int, dv);
    }
}

/// The descriptors of `v`, ordered by runtime id; descriptors with the same
/// runtime id keep their relative order.
pub fn sort_by_runtime_id(v: Vec<RuntimeDescriptor>) -> (r: Vec<RuntimeDescriptor>)
    ensures
        sorted_by_runtime_id(descriptors_view(r@)),
        descriptors_view(r@).to_multiset() =~= descriptors_view(v@).to_multiset(),
        descriptors_view(r@) == stable_sorted_by_runtime_id(descriptors_view(v@)),
{
    let ghost orig = descriptors_view(v@);
    let mut rest = v;
    let mut r: Vec<RuntimeDescriptor> = Vec::new();
    let ghost mut k: int = 0;
    assert(orig.skip(0) =~= orig);
    assert(orig.take(0) =~= Seq::<RuntimeDescriptorView>::empty());
    while rest.len() > 0
        invariant
            0 <= k <= orig.len(),
            descriptors_view(rest@) == orig.skip(k),
            sorted_by_runtime_id(descriptors_view(r@)),
            descriptors_view(r@).to_multiset().add(descriptors_view(rest@).to_multiset())
                =~= orig.to_multiset(),
            descriptors_view(r@) == stable_sorted_by_runtime_id(orig.take(k)),
        decreases rest@.len(),
    {
        let ghost rest_view = descriptors_view(rest@);
        let d = rest.remove(0);
        proof {
            assert(descriptors_view(rest@) =~= rest_view.remove(0));
            vstd::seq_lib::to_multiset_remove(rest_view, 0);
            assert(rest_view[0] == d@);
            assert(rest_view.contains(d@));
            assert(rest_view.skip(1) =~= rest_view.remove(0));
            assert(orig.skip(k + 1) =~= orig.skip(k).skip(1));
            assert(orig.take(k + 1).drop_last() =~= orig.take(k));
            assert(orig.take(k + 1).last() == orig.skip(k)[0]);
            k = k + 1;
        }
        insert_sorted(&mut r, d);
    }
    assert(descriptors_view(rest@).to_multiset() =~= Multiset::empty());
    assert(orig.take(k) =~= orig);
    r
}

/// The list after publishing `descriptor`: the descriptor replaces any with
/// its runtime id, and the list is ordered by runtime id.
pub fn published_runtime_descriptors(
    current: &Vec<RuntimeDescriptor>,
    descriptor: RuntimeDescriptor,
) -> (r: Vec<RuntimeDescriptor>)
    ensures
        sorted_by_runtime_id(descriptors_view(r@)),
        descriptors_view(r@).to_multiset() =~= without_runtime(
            descriptors_view(current@),
            descriptor.runtime_id@,
        ).push(descriptor@).to_multiset(),
        descriptors_view(r@) == stable_sorted_by_runtime_id(
            without_runtime(descriptors_view(current@), descriptor.runtime_id@).push(descriptor@),
        ),
{
    let mut kept = retain_other_runtimes(current, &descriptor.runtime_id);
    let ghost kept_view = descriptors_view(kept@);
    let ghost dv = descriptor@;
    kept.push(descriptor);
    assert(descriptors_view(kept@) =~= kept_view.push(dv));
    sort_by_runtime_id(kept)
}

/// The list after clearing `runtime_id`, in its stored order.
pub fn cleared_runtime_descriptors(current: &Vec<RuntimeDescriptor>, runtime_id: &String) -> (r:
    Vec<RuntimeDescriptor>)
    ensures
        descriptors_view(r@) == without_runtime(descriptors_view(current@), runtime_id@),
{
    retain_other_runtimes(current, runtime_id)
}

} // verus!
