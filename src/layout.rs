use vstd::prelude::*;
use crate::frame_slot::FrameSlot;

verus! {

/// `groups` is `samples` cut into consecutive groups of four, in order:
/// sample `4 * j + k` sits at lane `k` of group `j`.
pub open spec fn is_layout_of<T>(groups: Seq<[T; 4]>, samples: Seq<T>) -> bool {
    &&& groups.len() * 4 == samples.len()
    &&& forall|j: int, k: int|
        0 <= j < groups.len() && 0 <= k < 4 ==> #[trigger] groups[j]@[k] == samples[4 * j + k]
}

/// The samples of `groups` laid end to end, group after group.
pub open spec fn flatten_groups<T>(groups: Seq<[T; 4]>) -> Seq<T>
    decreases groups.len(),
{
    if groups.len() == 0 {
        Seq::empty()
    } else {
        flatten_groups(groups.drop_last()) + groups.last()@
    }
}

/// Packs a frame into groups of four consecutive samples, keeping their order.
pub fn repack<T: Copy>(samples: &[T]) -> (r: Vec<[T; 4]>)
    requires
        samples@.len() % 4 == 0,
    ensures
        is_layout_of(r@, samples@),
{
    let len: usize = samples.len();
    let n: usize = len / 4;
    let mut groups: Vec<[T; 4]> = Vec::with_capacity(n);
    let mut j: usize = 0;
    while j < n
        invariant
            n * 4 == len,
            len == samples@.len(),
            j <= n,
            groups@.len() == j,
            forall|a: int, k: int|
                0 <= a < j && 0 <= k < 4 ==> #[trigger] groups@[a]@[k] == samples@[4 * a + k],
        decreases n - j,
    {
        let b: usize = 4 * j;
        let g: [T; 4] = [samples[b], samples[b + 1], samples[b + 2], samples[b + 3]];
        assert(g@ =~= seq![samples@[b as int], samples@[b + 1], samples@[b + 2], samples@[b + 3]]);
        groups.push(g);
        j += 1;
    }
    groups
}

/// Brings the uploaded layout up to date with the latest frame: a frame that is
/// there replaces the whole layout with its groups of four; with no frame the
/// layout is left exactly as it was, so the last picture stays on screen.
pub fn refresh_layout<T: Copy>(layout: &mut Vec<[T; 4]>, latest: Option<&Vec<T>>)
    requires
        match latest {
            Some(frame) => frame@.len() % 4 == 0,
            None => true,
        },
    ensures
        match latest {
            Some(frame) => is_layout_of(final(layout)@, frame@),
            None => final(layout)@ == old(layout)@,
        },
{
    match latest {
        Some(frame) => {
            *layout = repack(frame.as_slice());
        },
        None => {},
    }
}

/// One render iteration's read of the shared slot: the latest frame, if one was
/// ever written, is repacked into the layout; before the first write the layout
/// keeps its previous content.
pub fn refresh_from_slot<T: Copy>(layout: &mut Vec<[T; 4]>, slot: &FrameSlot<Vec<T>>)
    requires
        match slot@ {
            Some(frame) => frame@.len() % 4 == 0,
            None => true,
        },
    ensures
        match slot@ {
            Some(frame) => is_layout_of(final(layout)@, frame@),
            None => final(layout)@ == old(layout)@,
        },
{
    refresh_layout(layout, slot.peek_latest());
}

/// Repacking is a faithful reshape: laying the groups of a frame's layout end
/// to end gives back the frame, sample for sample and in order.
pub proof fn lemma_flatten_layout<T>(groups: Seq<[T; 4]>, samples: Seq<T>)
    requires
        is_layout_of(groups, samples),
    ensures
        flatten_groups(groups) == samples,
    decreases groups.len(),
{
    if groups.len() == 0 {
        assert(samples =~= Seq::<T>::empty());
    } else {
        let n = groups.len() as int;
        let init = groups.drop_last();
        let front = samples.subrange(0, 4 * (n - 1));
        let back = samples.subrange(4 * (n - 1), 4 * n);
        assert forall|j: int, k: int| 0 <= j < n - 1 && 0 <= k < 4 implies #[trigger] init[j]@[k]
            == front[4 * j + k] by {
            assert(groups[j]@[k] == samples[4 * j + k]);
        }
        lemma_flatten_layout(init, front);
        assert forall|k: int| 0 <= k < 4 implies groups.last()@[k] == back[k] by {
            assert(groups[n - 1]@[k] == samples[4 * (n - 1) + k]);
        }
        assert(groups.last()@ =~= back);
        assert(samples =~= front + back);
    }
}

} // verus!
