//! Which containers of a class to stop when it has too many: the oldest first, so that
//! freshly started containers still initialising are spared.
use vstd::prelude::*;
use crate::classifier::classify;
use crate::reconcile::listed_match;

verus! {

/// `picked` lists, oldest first, distinct containers of the class of `prefix` among
/// the listed ones, and none of them is younger than a container of the class that was
/// not picked.
pub open spec fn oldest_first(
    prefix: Seq<char>,
    image_ids: Seq<Option<String>>,
    created: Seq<i64>,
    picked: Seq<usize>,
) -> bool {
    &&& forall|k: int| 0 <= k < picked.len() ==> picked[k] < image_ids.len()
    &&& forall|k: int| 0 <= k < picked.len() ==> listed_match(prefix, image_ids[picked[k] as int])
    &&& forall|k: int, l: int| 0 <= k < l < picked.len() ==> picked[k] != picked[l]
    &&& forall|k: int, l: int| 0 <= k < l < picked.len() ==> created[picked[k] as int] <= created[picked[l] as int]
    &&& forall|k: int, j: int|
        0 <= k < picked.len() && 0 <= j < image_ids.len() && listed_match(prefix, image_ids[j])
            && !picked.contains(j as usize) ==> created[picked[k] as int] <= created[j]
}

/// Picks, oldest first, `n` containers of the class of `prefix` to stop, or all of them
/// where the class has fewer; `created` gives each listed container's creation time.
/// Among containers of the same age the one listed first goes first.
pub fn select_oldest(
    prefix: &str,
    image_ids: &Vec<Option<String>>,
    created: &Vec<i64>,
    n: usize,
) -> (r: Vec<usize>)
    requires
        image_ids@.len() == created@.len(),
    ensures
        oldest_first(prefix@, image_ids@, created@, r@),
        r@.len() == n || (r@.len() < n && forall|j: int|
            0 <= j < image_ids@.len() && listed_match(prefix@, image_ids@[j]) ==> r@.contains(
                j as usize,
            )),
{
    let len = image_ids.len();
    let mut open: Vec<bool> = Vec::new();
    let mut i: usize = 0;
    while i < len
        invariant
            len == image_ids@.len(),
            i <= len,
            open@.len() == i,
            forall|j: int| 0 <= j < i ==> open@[j] == listed_match(prefix@, image_ids@[j]),
        decreases len - i,
    {
        let m = match &image_ids[i] {
            Some(id) => classify(prefix, id.as_str()),
            None => false,
        };
        open.push(m);
        i = i + 1;
    }
    let mut picked: Vec<usize> = Vec::new();
    while picked.len() < n
        invariant
            len == image_ids@.len(),
            len == created@.len(),
            open@.len() == len,
            picked@.len() <= n,
            forall|j: int|
                0 <= j < len ==> (open@[j] <==> (listed_match(prefix@, image_ids@[j])
                    && !picked@.contains(j as usize))),
            oldest_first(prefix@, image_ids@, created@, picked@),
        decreases n - picked@.len(),
    {
        let mut best: usize = len;
        let mut j: usize = 0;
        while j < len
            invariant
                len == image_ids@.len(),
                len == created@.len(),
                open@.len() == len,
                j <= len,
                best == len || (best < j && open@[best as int]),
                best == len ==> forall|q: int| 0 <= q < j ==> !open@[q],
                best < len ==> forall|q: int| 0 <= q < j && open@[q] ==> created@[best as int] <= created@[q],
            decreases len - j,
        {
            if open[j] && (best == len || created[j] < created[best]) {
                best = j;
            }
            j = j + 1;
        }
        if best == len {
            assert forall|q: int|
                0 <= q < image_ids@.len() && listed_match(prefix@, image_ids@[q]) implies picked@.contains(
                q as usize,
            ) by {
                assert(!open@[q]);
            }
            return picked;
        }
        let ghost before = picked@;
        picked.push(best);
        open.set(best, false);
        proof {
            assert(picked@ == before.push(best));
            assert forall|q: int| 0 <= q < len implies (open@[q] <==> (listed_match(
                prefix@,
                image_ids@[q],
            ) && !picked@.contains(q as usize))) by {
                if q != best as int {
                    assert(picked@.contains(q as usize) <==> before.contains(q as usize)) by {
                        if picked@.contains(q as usize) {
                            let k = choose|k: int| 0 <= k < picked@.len() && picked@[k] == q as usize;
                            assert(k < before.len());
                            assert(before[k] == q as usize);
                        }
                        if before.contains(q as usize) {
                            let k = choose|k: int| 0 <= k < before.len() && before[k] == q as usize;
                            assert(picked@[k] == q as usize);
                        }
                    }
                } else {
                    assert(picked@[before.len() as int] == best);
                }
            }
            assert forall|k: int, l: int| 0 <= k < l < picked@.len() implies picked@[k] != picked@[l] by {
                if l == before.len() {
                    assert(before.contains(picked@[k]));
                }
            }
            assert forall|k: int, l: int| 0 <= k < l < picked@.len() implies created@[picked@[k] as int]
                <= created@[picked@[l] as int] by {
                if l == before.len() {
                    assert(!before.contains(best));
                }
            }
            assert forall|k: int, q: int|
                0 <= k < picked@.len() && 0 <= q < image_ids@.len() && listed_match(prefix@, image_ids@[q])
                    && !picked@.contains(q as usize) implies created@[picked@[k] as int] <= created@[q] by {
                assert(!before.contains(q as usize)) by {
                    if before.contains(q as usize) {
                        let m = choose|m: int| 0 <= m < before.len() && before[m] == q as usize;
                        assert(picked@[m] == q as usize);
                    }
                }
                assert(open@[q]);
                assert(q != best as int) by {
                    assert(picked@[before.len() as int] == best);
                }
            }
        }
    }
    picked
}

} // verus!
