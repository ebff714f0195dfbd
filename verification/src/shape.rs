use vstd::prelude::*;

verus! {

// ---------------------------------------------------------------------------
// Matrix-multiplication shape rules.
//
// The tensor library multiplies `[.., m, k]` by `[.., k, n]` into `[.., m, n]`
// when both operands have the same rank (at least 2), the inner dimensions
// agree and the leading (batch) dimensions agree.
// ---------------------------------------------------------------------------

/// The two dimension sequences can be fed to `matmul` as `a * b`.
pub open spec fn mm_compatible(a: Seq<usize>, b: Seq<usize>) -> bool {
    &&& a.len() >= 2
    &&& a.len() == b.len()
    &&& a.last() == b[b.len() - 2]
    &&& a.take(a.len() - 2) == b.take(b.len() - 2)
}

/// The dimensions of `matmul(a, b)`: `a` with its trailing dimension replaced
/// by the trailing dimension of `b`.
pub open spec fn mm_out_dims(a: Seq<usize>, b: Seq<usize>) -> Seq<usize> {
    a.update(a.len() - 1, b.last())
}

/// `s` with its last two entries exchanged: what transposing does to a shape
/// and to the strides beside it.
pub open spec fn swap_last2(s: Seq<usize>) -> Seq<usize> {
    s.update(s.len() - 2, s.last()).update(s.len() - 1, s[s.len() - 2])
}

// ---------------------------------------------------------------------------
// Broadcasting.
//
// Two shapes broadcast together by aligning them at their trailing
// dimensions, treating missing leading dimensions as 1; at each position the
// dimensions must be equal, or one of them must be 1 and stretches to the
// other.
// ---------------------------------------------------------------------------

/// `a` left-padded with 1s to length `n` (`n >= a.len()`).
pub open spec fn pad_left(a: Seq<usize>, n: nat) -> Seq<usize> {
    Seq::new(n, |i: int| if i < n - a.len() { 1usize } else { a[i - (n - a.len())] })
}

/// One aligned dimension pair is broadcast-compatible.
pub open spec fn bcast_dim_ok(x: usize, y: usize) -> bool {
    x == y || x == 1 || y == 1
}

/// The dimension a compatible pair broadcasts to.
pub open spec fn bcast_dim(x: usize, y: usize) -> usize {
    if x == 1 { y } else { x }
}

/// The two shapes broadcast together.
pub open spec fn bcast_ok(a: Seq<usize>, b: Seq<usize>) -> bool {
    let n = max_len(a, b);
    forall|i: int| 0 <= i < n ==> bcast_dim_ok(#[trigger] pad_left(a, n)[i], pad_left(b, n)[i])
}

/// The length of the broadcast result.
pub open spec fn max_len(a: Seq<usize>, b: Seq<usize>) -> nat {
    if a.len() >= b.len() { a.len() } else { b.len() }
}

/// The shape the two shapes broadcast to.
pub open spec fn bcast_shape(a: Seq<usize>, b: Seq<usize>) -> Seq<usize> {
    let n = max_len(a, b);
    Seq::new(n, |i: int| bcast_dim(pad_left(a, n)[i], pad_left(b, n)[i]))
}

/// Computes the broadcast shape of two dimension vectors, or `None` when they
/// are not broadcast-compatible.
pub fn broadcast_shape_of(a: &Vec<usize>, b: &Vec<usize>) -> (r: Option<Vec<usize>>)
    ensures
        r matches Some(v) ==> bcast_ok(a@, b@) && v@ == bcast_shape(a@, b@),
        r is None ==> !bcast_ok(a@, b@),
{
    let n: usize = if a.len() >= b.len() { a.len() } else { b.len() };
    let mut out: Vec<usize> = Vec::new();
    let mut i: usize = 0;
    while i < n
        invariant
            i <= n,
            n == max_len(a@, b@),
            a@.len() <= n,
            b@.len() <= n,
            out@.len() == i,
            forall|j: int|
                0 <= j < i ==> bcast_dim_ok(#[trigger] pad_left(a@, n as nat)[j], pad_left(b@, n as nat)[j]),
            forall|j: int|
                0 <= j < i ==> out@[j] == bcast_dim(#[trigger] pad_left(a@, n as nat)[j], pad_left(b@, n as nat)[j]),
        decreases n - i,
    {
        let x: usize = if i < n - a.len() { 1 } else { a[i - (n - a.len())] };
        let y: usize = if i < n - b.len() { 1 } else { b[i - (n - b.len())] };
        assert(x == pad_left(a@, n as nat)[i as int]);
        assert(y == pad_left(b@, n as nat)[i as int]);
        if x == y {
            out.push(x);
        } else if x == 1 {
            out.push(y);
        } else if y == 1 {
            out.push(x);
        } else {
            assert(!bcast_dim_ok(pad_left(a@, n as nat)[i as int], pad_left(b@, n as nat)[i as int]));
            return None;
        }
        i = i + 1;
    }
    proof {
        assert(out@ =~= bcast_shape(a@, b@));
    }
    Some(out)
}

} // verus!
