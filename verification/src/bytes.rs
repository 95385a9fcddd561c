use vstd::prelude::*;

verus! {

/// `s` extended with zero bytes up to width `w` (unchanged when already wider).
pub open spec fn zero_padded(s: Seq<u8>, w: nat) -> Seq<u8> {
    if s.len() >= w {
        s
    } else {
        s + Seq::new((w - s.len()) as nat, |i: int| 0u8)
    }
}

/// `s` with every leading zero byte removed.
pub open spec fn strip_leading_zeros(s: Seq<u8>) -> Seq<u8>
    decreases s.len(),
{
    if s.len() > 0 && s[0] == 0 {
        strip_leading_zeros(s.skip(1))
    } else {
        s
    }
}

/// `s` with every trailing zero byte removed.
pub open spec fn strip_trailing_zeros(s: Seq<u8>) -> Seq<u8>
    decreases s.len(),
{
    if s.len() > 0 && s[s.len() - 1] == 0 {
        strip_trailing_zeros(s.take(s.len() - 1))
    } else {
        s
    }
}

/// `s` with zero bytes removed from both ends: how a zero-padded label is
/// reported in notifications.
pub open spec fn trim_zeros(s: Seq<u8>) -> Seq<u8> {
    strip_trailing_zeros(strip_leading_zeros(s))
}

/// Byte-for-byte copy of a byte vector.
pub fn copy_bytes(v: &Vec<u8>) -> (r: Vec<u8>)
    ensures
        r@ == v@,
{
    let mut r: Vec<u8> = Vec::new();
    let mut i: usize = 0;
    while i < v.len()
        invariant
            i <= v@.len(),
            r@ == v@.subrange(0, i as int),
        decreases v@.len() - i,
    {
        r.push(v[i]);
        proof {
            assert(r@ =~= v@.subrange(0, i + 1 as int));
        }
        i = i + 1;
    }
    proof {
        assert(r@ =~= v@);
    }
    r
}

/// Copies `v` and extends it with zero bytes up to `width`.
pub fn pad_to(v: &Vec<u8>, width: usize) -> (r: Vec<u8>)
    requires
        v@.len() <= width,
    ensures
        r@ == zero_padded(v@, width as nat),
        r@.len() == width,
{
    let mut r = copy_bytes(v);
    while r.len() < width
        invariant
            v@.len() <= r@.len() <= width,
            r@.subrange(0, v@.len() as int) == v@,
            forall|j: int| v@.len() <= j < r@.len() ==> r@[j] == 0u8,
        decreases width - r@.len(),
    {
        r.push(0u8);
        proof {
            assert(r@.subrange(0, v@.len() as int) =~= v@);
        }
    }
    proof {
        assert(r@ =~= zero_padded(v@, width as nat));
    }
    r
}

/// Removes zero bytes from both ends of `v`.
pub fn trim_zero_bytes(v: &Vec<u8>) -> (r: Vec<u8>)
    ensures
        r@ == trim_zeros(v@),
{
    let mut lo: usize = 0;
    proof {
        assert(v@.skip(0) =~= v@);
    }
    while lo < v.len() && v[lo] == 0
        invariant
            lo <= v@.len(),
            strip_leading_zeros(v@) == strip_leading_zeros(v@.skip(lo as int)),
        decreases v@.len() - lo,
    {
        proof {
            assert(v@.skip(lo as int).skip(1) =~= v@.skip(lo + 1 as int));
        }
        lo = lo + 1;
    }
    proof {
        if lo < v@.len() {
            assert(strip_leading_zeros(v@.skip(lo as int)) == v@.skip(lo as int));
        } else {
            assert(v@.skip(lo as int) =~= Seq::<u8>::empty());
        }
        assert(strip_leading_zeros(v@) == v@.skip(lo as int));
    }
    let mut hi: usize = v.len();
    while hi > lo && v[hi - 1] == 0
        invariant
            lo <= hi <= v@.len(),
            strip_trailing_zeros(v@.skip(lo as int)) == strip_trailing_zeros(
                v@.subrange(lo as int, hi as int),
            ),
            strip_leading_zeros(v@) == v@.skip(lo as int),
        decreases hi,
    {
        proof {
            let cur = v@.subrange(lo as int, hi as int);
            assert(cur[cur.len() - 1] == v@[hi - 1]);
            assert(cur.take(cur.len() - 1) =~= v@.subrange(lo as int, hi - 1 as int));
        }
        hi = hi - 1;
    }
    proof {
        let cur = v@.subrange(lo as int, hi as int);
        if hi > lo {
            assert(cur[cur.len() - 1] == v@[hi - 1]);
            assert(strip_trailing_zeros(cur) == cur);
        } else {
            assert(cur =~= Seq::<u8>::empty());
        }
        assert(trim_zeros(v@) == v@.subrange(lo as int, hi as int));
    }
    let mut r: Vec<u8> = Vec::new();
    let mut i: usize = lo;
    while i < hi
        invariant
            lo <= i <= hi <= v@.len(),
            r@ == v@.subrange(lo as int, i as int),
            trim_zeros(v@) == v@.subrange(lo as int, hi as int),
        decreases hi - i,
    {
        r.push(v[i]);
        proof {
            assert(r@ =~= v@.subrange(lo as int, i + 1 as int));
        }
        i = i + 1;
    }
    r
}

} // verus!
