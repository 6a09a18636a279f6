//! A set of addresses kept as a list without repeats, in insertion order.
use vstd::prelude::*;

verus! {

/// `a` is one of the addresses in `v`.
pub open spec fn has_addr(v: Seq<String>, a: Seq<char>) -> bool {
    exists|i: int| 0 <= i < v.len() && #[trigger] v[i]@ == a
}

/// No address occurs twice in `v`.
pub open spec fn unique_addrs(v: Seq<String>) -> bool {
    forall|i: int, j: int| 0 <= i < j < v.len() ==> #[trigger] v[i]@ != #[trigger] v[j]@
}

/// The addresses of `v`, as a set.
pub open spec fn addr_set(v: Seq<String>) -> Set<Seq<char>> {
    Set::new(|a: Seq<char>| has_addr(v, a))
}

/// Whether `a` is in `v`.
pub fn contains_addr(v: &Vec<String>, a: &String) -> (r: bool)
    ensures
        r == has_addr(v@, a@),
{
    let mut i: usize = 0;
    while i < v.len()
        invariant
            0 <= i <= v@.len(),
            forall|k: int| 0 <= k < i ==> #[trigger] v@[k]@ != a@,
        decreases v@.len() - i,
    {
        if v[i] == *a {
            return true;
        }
        i = i + 1;
    }
    false
}

/// Adds `a` to `v` unless it is there already.
pub fn insert_addr(v: &mut Vec<String>, a: String)
    requires
        unique_addrs(old(v)@),
    ensures
        unique_addrs(final(v)@),
        has_addr(old(v)@, a@) ==> final(v)@ == old(v)@,
        !has_addr(old(v)@, a@) ==> final(v)@ == old(v)@.push(a),
        addr_set(final(v)@) == addr_set(old(v)@).insert(a@),
{
    if !contains_addr(v, &a) {
        let ghost a_view = a@;
        v.push(a);
        proof {
            let n = old(v)@.len();
            assert(final(v)@[n as int]@ == a_view);
            assert forall|b: Seq<char>| has_addr(final(v)@, b) == (has_addr(old(v)@, b) || b == a_view) by {
                if has_addr(old(v)@, b) {
                    let i = choose|i: int| 0 <= i < old(v)@.len() && #[trigger] old(v)@[i]@ == b;
                    assert(final(v)@[i]@ == b);
                }
                if has_addr(final(v)@, b) && b != a_view {
                    let i = choose|i: int| 0 <= i < final(v)@.len() && #[trigger] final(v)@[i]@ == b;
                    assert(old(v)@[i]@ == b);
                }
            }
        }
    }
    assert(addr_set(final(v)@) =~= addr_set(old(v)@).insert(a@));
}

/// Takes `a` out of `v`; nothing changes where it is absent.
pub fn remove_addr(v: &mut Vec<String>, a: &String)
    requires
        unique_addrs(old(v)@),
    ensures
        unique_addrs(final(v)@),
        !has_addr(old(v)@, a@) ==> final(v)@ == old(v)@,
        addr_set(final(v)@) == addr_set(old(v)@).remove(a@),
{
    let mut i: usize = 0;
    while i < v.len()
        invariant
            v@ == old(v)@,
            unique_addrs(old(v)@),
            0 <= i <= v@.len(),
            forall|k: int| 0 <= k < i ==> #[trigger] v@[k]@ != a@,
        decreases v@.len() - i,
    {
        if v[i] == *a {
            v.remove(i);
            proof {
                let o = old(v)@;
                let f = final(v)@;
                assert(f =~= o.remove(i as int));
                assert forall|b: Seq<char>| has_addr(f, b) == (has_addr(o, b) && b != a@) by {
                    if has_addr(o, b) && b != a@ {
                        let j = choose|j: int| 0 <= j < o.len() && #[trigger] o[j]@ == b;
                        if j < i {
                            assert(f[j]@ == b);
                        } else {
                            assert(f[j - 1]@ == b);
                        }
                    }
                    if has_addr(f, b) {
                        let j = choose|j: int| 0 <= j < f.len() && #[trigger] f[j]@ == b;
                        if j < i {
                            assert(o[j]@ == b);
                            assert(o[j]@ != o[i as int]@);
                        } else {
                            assert(o[j + 1]@ == b);
                            assert(o[i as int]@ != o[j + 1]@);
                        }
                    }
                }
                assert forall|x: int, y: int| 0 <= x < y < f.len() implies #[trigger] f[x]@ != #[trigger] f[y]@ by {
                    let ox = if x < i { x } else { x + 1 };
                    let oy = if y < i { y } else { y + 1 };
                    assert(o[ox]@ != o[oy]@);
                }
                assert(addr_set(f) =~= addr_set(o).remove(a@));
            }
            return;
        }
        i = i + 1;
    }
    assert(addr_set(v@) =~= addr_set(old(v)@).remove(a@));
}

} // verus!
