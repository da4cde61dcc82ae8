//! The display order of a device list: a stable insertion sort.
use vstd::prelude::*;

use crate::device::{
    device_le, device_le_exec, lemma_device_le_total, lemma_device_le_trans, BTDevice,
};

verus! {

broadcast use vstd::seq_lib::group_to_multiset_ensures;

/// `s` with `x` placed after every element that does not come after it.
pub open spec fn insert_in_order(s: Seq<BTDevice>, x: BTDevice) -> Seq<BTDevice>
    decreases s.len(),
{
    if s.len() == 0 {
        seq![x]
    } else if device_le(s.last(), x) {
        s.push(x)
    } else {
        insert_in_order(s.drop_last(), x).push(s.last())
    }
}

/// The devices in display order; devices that tie keep their relative order.
pub open spec fn sorted_devices(s: Seq<BTDevice>) -> Seq<BTDevice>
    decreases s.len(),
{
    if s.len() == 0 {
        s
    } else {
        insert_in_order(sorted_devices(s.drop_last()), s.last())
    }
}

/// Each device comes no later, in display order, than the one after it.
pub open spec fn devices_in_order(s: Seq<BTDevice>) -> bool {
    forall|i: int| 0 <= i < s.len() - 1 ==> device_le(#[trigger] s[i], s[i + 1])
}

/// A list in display order is ordered pairwise, not only between neighbours.
pub proof fn lemma_in_order_pairwise(s: Seq<BTDevice>, i: int, j: int)
    requires
        devices_in_order(s),
        0 <= i < j < s.len(),
    ensures
        device_le(s[i], s[j]),
    decreases j - i,
{
    if j > i + 1 {
        lemma_in_order_pairwise(s, i, j - 1);
        assert(device_le(s[j - 1], s[j]));
        lemma_device_le_trans(s[i], s[j - 1], s[j]);
    }
}

proof fn lemma_insert_at(s: Seq<BTDevice>, x: BTDevice, p: int)
    requires
        0 <= p <= s.len(),
        p == 0 || device_le(s[p - 1], x),
        forall|k: int| p <= k < s.len() ==> !device_le(#[trigger] s[k], x),
    ensures
        insert_in_order(s, x) == s.insert(p, x),
    decreases s.len(),
{
    if s.len() == 0 {
        assert(seq![x] =~= s.insert(p, x));
    } else if p == s.len() {
        assert(s.push(x) =~= s.insert(p, x));
    } else {
        assert(!device_le(s.last(), x));
        lemma_insert_at(s.drop_last(), x, p);
        assert(s.drop_last().insert(p, x).push(s.last()) =~= s.insert(p, x));
    }
}

proof fn lemma_insert_keeps_order(s: Seq<BTDevice>, x: BTDevice)
    requires
        devices_in_order(s),
    ensures
        devices_in_order(insert_in_order(s, x)),
        insert_in_order(s, x).len() == s.len() + 1,
        insert_in_order(s, x).to_multiset() == s.to_multiset().insert(x),
        s.len() == 0 || device_le(s.last(), x) ==> insert_in_order(s, x).last() == x,
        s.len() > 0 && !device_le(s.last(), x) ==> insert_in_order(s, x).last() == s.last(),
    decreases s.len(),
{
    let r = insert_in_order(s, x);
    if s.len() == 0 {
        assert(seq![x] =~= Seq::<BTDevice>::empty().push(x));
    } else if device_le(s.last(), x) {
        assert forall|i: int| 0 <= i < r.len() - 1 implies device_le(#[trigger] r[i], r[i + 1]) by {
            if i < s.len() - 1 {
                assert(r[i] == s[i] && r[i + 1] == s[i + 1]);
            }
        }
    } else {
        let t = s.drop_last();
        assert(devices_in_order(t)) by {
            assert forall|i: int| 0 <= i < t.len() - 1 implies device_le(
                #[trigger] t[i],
                t[i + 1],
            ) by {
                assert(s[i] == t[i] && s[i + 1] == t[i + 1]);
            }
        }
        lemma_insert_keeps_order(t, x);
        let q = insert_in_order(t, x);
        lemma_device_le_total(s.last(), x);
        if t.len() > 0 {
            assert(device_le(s[t.len() - 1], s[t.len() as int]));
        }
        assert(device_le(q.last(), s.last()));
        assert forall|i: int| 0 <= i < r.len() - 1 implies device_le(#[trigger] r[i], r[i + 1]) by {
            if i < q.len() - 1 {
                assert(r[i] == q[i] && r[i + 1] == q[i + 1]);
            }
        }
        assert(s =~= t.push(s.last()));
    }
}

/// A sorted list is in display order and holds the same devices as before.
pub proof fn lemma_sorted_devices(s: Seq<BTDevice>)
    ensures
        devices_in_order(sorted_devices(s)),
        sorted_devices(s).len() == s.len(),
        sorted_devices(s).to_multiset() == s.to_multiset(),
    decreases s.len(),
{
    if s.len() > 0 {
        lemma_sorted_devices(s.drop_last());
        lemma_insert_keeps_order(sorted_devices(s.drop_last()), s.last());
        assert(s =~= s.drop_last().push(s.last()));
    }
}

/// Sorting a list that is already in display order leaves it as it is.
pub proof fn lemma_sorted_devices_fixed(s: Seq<BTDevice>)
    requires
        devices_in_order(s),
    ensures
        sorted_devices(s) == s,
    decreases s.len(),
{
    if s.len() > 0 {
        let t = s.drop_last();
        assert(devices_in_order(t)) by {
            assert forall|i: int| 0 <= i < t.len() - 1 implies device_le(
                #[trigger] t[i],
                t[i + 1],
            ) by {
                assert(s[i] == t[i] && s[i + 1] == t[i + 1]);
            }
        }
        lemma_sorted_devices_fixed(t);
        if t.len() > 0 {
            assert(device_le(s[t.len() - 1], s[t.len() as int]));
        }
        assert(t.push(s.last()) =~= s);
    }
}

/// Sorting is idempotent: a list sorted twice equals the list sorted once.
pub proof fn lemma_sort_idempotent(s: Seq<BTDevice>)
    ensures
        sorted_devices(sorted_devices(s)) == sorted_devices(s),
{
    lemma_sorted_devices(s);
    lemma_sorted_devices_fixed(sorted_devices(s));
}

/// Puts the devices in display order: by status rank, then by lowercased name,
/// keeping the relative order of devices that tie.
pub fn sort_devices(devices: &mut Vec<BTDevice>)
    ensures
        final(devices)@ == sorted_devices(old(devices)@),
        devices_in_order(final(devices)@),
        final(devices)@.to_multiset() == old(devices)@.to_multiset(),
{
    let ghost input = devices@;
    let n = devices.len();
    let mut out: Vec<BTDevice> = Vec::new();
    let mut i: usize = 0;
    while i < n
        invariant
            n == input.len(),
            devices@ == input,
            i <= n,
            out@ == sorted_devices(input.subrange(0, i as int)),
            devices_in_order(out@),
        decreases n - i,
    {
        let x = devices[i].clone();
        let mut j: usize = out.len();
        loop
            invariant
                j <= out.len(),
                forall|k: int| j <= k < out.len() ==> !device_le(#[trigger] out@[k], x),
            ensures
                j <= out.len(),
                j == 0 || device_le(out@[j - 1], x),
                forall|k: int| j <= k < out.len() ==> !device_le(#[trigger] out@[k], x),
            decreases j,
        {
            if j == 0 || device_le_exec(&out[j - 1], &x) {
                break;
            }
            j = j - 1;
        }
        proof {
            lemma_insert_at(out@, x, j as int);
            lemma_insert_keeps_order(out@, x);
            let pre = input.subrange(0, i as int + 1);
            assert(pre.drop_last() =~= input.subrange(0, i as int));
            assert(pre.last() == x);
        }
        out.insert(j, x);
        i = i + 1;
    }
    proof {
        assert(input.subrange(0, n as int) =~= input);
        lemma_sorted_devices(input);
    }
    *devices = out;
}

} // verus!
