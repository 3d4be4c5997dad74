//! The matrix codec: a 4x4 transform held column by column, and its
//! loss-free conversion to and from the flat 16-element column-major layout
//! that a matrix uniform upload expects.

use vstd::prelude::*;

verus! {

/// Bit pattern of single-precision 1.0, the diagonal of the identity transform.
pub const ONE_BITS: u32 = 0x3F80_0000;

/// A 4x4 transform matrix stored column by column, each element the bit
/// pattern of a single-precision scalar. The view is the sequence of the
/// four columns, each a sequence of four elements.
pub struct Mat4 {
    cols: Vec<Vec<u32>>,
}

/// A well-shaped matrix: exactly four columns of four elements each.
pub open spec fn mat4_wf(m: Seq<Seq<u32>>) -> bool {
    m.len() == 4 && forall|i: int| 0 <= i < 4 ==> (#[trigger] m[i]).len() == 4
}

/// Column-major flattening: the four columns concatenated front to back,
/// so element `4 * c + r` of the result is row `r` of column `c`.
pub open spec fn flat_of(m: Seq<Seq<u32>>) -> Seq<u32> {
    m[0] + m[1] + m[2] + m[3]
}

/// The inverse layout: a flat 16-element sequence cut back into four columns.
pub open spec fn mat_of(s: Seq<u32>) -> Seq<Seq<u32>> {
    seq![s.subrange(0, 4), s.subrange(4, 8), s.subrange(8, 12), s.subrange(12, 16)]
}

/// The columns of the identity transform.
pub open spec fn identity_cols() -> Seq<Seq<u32>> {
    seq![
        seq![ONE_BITS, 0u32, 0u32, 0u32],
        seq![0u32, ONE_BITS, 0u32, 0u32],
        seq![0u32, 0u32, ONE_BITS, 0u32],
        seq![0u32, 0u32, 0u32, ONE_BITS],
    ]
}

impl View for Mat4 {
    type V = Seq<Seq<u32>>;

    closed spec fn view(&self) -> Seq<Seq<u32>> {
        self.cols@.map_values(|c: Vec<u32>| c@)
    }
}

impl Mat4 {
    #[verifier::type_invariant]
    pub(crate) open spec fn wf(&self) -> bool {
        mat4_wf(self@)
    }

    /// Builds a matrix from four columns of four elements each.
    pub fn from_cols(cols: Vec<Vec<u32>>) -> (m: Mat4)
        requires
            cols@.len() == 4,
            forall|i: int| 0 <= i < 4 ==> (#[trigger] cols@[i])@.len() == 4,
        ensures
            m@ == cols@.map_values(|c: Vec<u32>| c@),
    {
        Mat4 { cols }
    }

    /// The identity transform.
    pub fn identity() -> (m: Mat4)
        ensures
            m@ == identity_cols(),
    {
        let mut cols: Vec<Vec<u32>> = Vec::new();
        let mut c: usize = 0;
        while c < 4
            invariant
                c <= 4,
                cols@.len() == c,
                forall|i: int| 0 <= i < c ==> #[trigger] cols@[i]@ == identity_cols()[i],
            decreases 4 - c,
        {
            let mut col: Vec<u32> = Vec::new();
            let mut r: usize = 0;
            while r < 4
                invariant
                    r <= 4,
                    c < 4,
                    col@.len() == r,
                    forall|j: int|
                        0 <= j < r ==> #[trigger] col@[j] == if j == c {
                            ONE_BITS
                        } else {
                            0u32
                        },
                decreases 4 - r,
            {
                if r == c {
                    col.push(ONE_BITS);
                } else {
                    col.push(0);
                }
                r += 1;
            }
            proof {
                assert(col@ =~= identity_cols()[c as int]);
            }
            cols.push(col);
            c += 1;
        }
        let m = Mat4 { cols };
        proof {
            assert(m@ =~~= identity_cols());
        }
        m
    }
}

/// The first `c` columns of a matrix, flattened.
spec fn flat_prefix(m: Seq<Seq<u32>>, c: int) -> Seq<u32>
    decreases c,
{
    if c <= 0 {
        Seq::empty()
    } else {
        flat_prefix(m, c - 1) + m[c - 1]
    }
}

/// Flattens a transform into the 16-element column-major layout used for a
/// matrix uniform upload. Loss-free: elements are copied bit for bit, in
/// the matrix's native storage order.
pub fn flatten(m: &Mat4) -> (r: Vec<u32>)
    ensures
        r@ == flat_of(m@),
        r@.len() == 16,
{
    proof {
        use_type_invariant(m);
    }
    let mut r: Vec<u32> = Vec::new();
    let mut c: usize = 0;
    while c < 4
        invariant
            mat4_wf(m@),
            c <= 4,
            r@ == flat_prefix(m@, c as int),
        decreases 4 - c,
    {
        proof {
            assert(m.cols@.len() == 4 && m.cols@[c as int]@ == m@[c as int]);
        }
        let col = &m.cols[c];
        r.push(col[0]);
        r.push(col[1]);
        r.push(col[2]);
        r.push(col[3]);
        proof {
            assert(r@ =~= flat_prefix(m@, c as int + 1));
        }
        c += 1;
    }
    proof {
        reveal_with_fuel(flat_prefix, 5);
        assert(flat_prefix(m@, 4) =~= flat_of(m@));
    }
    r
}

/// Rebuilds a matrix from a flat 16-element column-major layout.
pub fn unflatten(v: &Vec<u32>) -> (m: Mat4)
    requires
        v@.len() == 16,
    ensures
        m@ == mat_of(v@),
{
    let mut cols: Vec<Vec<u32>> = Vec::new();
    let mut c: usize = 0;
    while c < 4
        invariant
            c <= 4,
            v@.len() == 16,
            cols@.len() == c,
            forall|i: int| 0 <= i < c ==> #[trigger] cols@[i]@ == v@.subrange(4 * i, 4 * i + 4),
        decreases 4 - c,
    {
        let mut col: Vec<u32> = Vec::new();
        col.push(v[4 * c]);
        col.push(v[4 * c + 1]);
        col.push(v[4 * c + 2]);
        col.push(v[4 * c + 3]);
        proof {
            assert(col@ =~= v@.subrange(4 * c as int, 4 * c as int + 4));
        }
        cols.push(col);
        c += 1;
    }
    let m = Mat4 { cols };
    proof {
        assert(m@ =~~= mat_of(v@));
    }
    m
}

/// Flattening then rebuilding restores every well-shaped matrix exactly:
/// the codec loses nothing.
pub proof fn lemma_mat_of_flat_of(m: Seq<Seq<u32>>)
    requires
        mat4_wf(m),
    ensures
        mat_of(flat_of(m)) == m,
{
    assert(mat_of(flat_of(m)) =~~= m);
}

/// Rebuilding then flattening restores every 16-element layout exactly:
/// together with the lemma above, the codec is a bijection between
/// well-shaped matrices and 16-element layouts, preserving element order.
pub proof fn lemma_flat_of_mat_of(s: Seq<u32>)
    requires
        s.len() == 16,
    ensures
        flat_of(mat_of(s)) == s,
{
    assert(flat_of(mat_of(s)) =~= s);
}

} // verus!
