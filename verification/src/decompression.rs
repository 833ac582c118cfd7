//! Rebuilding full GLWE rows from their stored bodies and regenerated masks.
//!
//! A seeded GGSW list stores, for each GLWE row, only its body polynomial of `n`
//! coefficients. Decompression writes each row out in full: the `m` mask coefficients
//! that the generator yields for that row, followed by the row's body.
use vstd::prelude::*;
use vstd::arithmetic::div_mod::lemma_fundamental_div_mod_converse;

verus! {

/// Element `j` of the decompressed rows: row `j / (m + n)`, position `j % (m + n)`
/// in it; the first `m` positions of a row hold its mask, the last `n` its body.
pub open spec fn decompressed_at<T>(bodies: Seq<T>, masks: Seq<T>, m: nat, n: nat, j: int) -> T {
    let q = j / (m + n) as int;
    let i = j % (m + n) as int;
    if i < m {
        masks[q * m + i]
    } else {
        bodies[q * n + (i - m)]
    }
}

/// Number of rows stored in `bodies`, each body being `n` elements long.
pub open spec fn row_count<T>(bodies: Seq<T>, n: nat) -> nat {
    bodies.len() / n
}

/// All rows written out in full, one after the other.
pub open spec fn decompressed_rows<T>(bodies: Seq<T>, masks: Seq<T>, m: nat, n: nat) -> Seq<T> {
    Seq::new(row_count(bodies, n) * (m + n), |j: int| decompressed_at(bodies, masks, m, n, j))
}

/// The bodies split into whole rows and the masks hold `m` elements per row.
pub open spec fn rows_match<T>(bodies: Seq<T>, masks: Seq<T>, m: nat, n: nat) -> bool {
    &&& n > 0
    &&& bodies.len() % n == 0
    &&& masks.len() == row_count(bodies, n) * m
}

/// Position `i` of row `q` is element `q * (m + n) + i` of the decompressed rows.
proof fn lemma_row_position(q: int, i: int, m: nat, n: nat)
    requires
        m + n > 0,
        q >= 0,
        0 <= i < m + n,
    ensures
        (q * (m + n) + i) / (m + n) as int == q,
        (q * (m + n) + i) % (m + n) as int == i,
{
    lemma_fundamental_div_mod_converse(q * (m + n) + i, (m + n) as int, q, i);
}

/// Row `q` of the decompressed rows is the `m` mask elements of row `q` followed by
/// the stored body of row `q`.
pub proof fn lemma_decompressed_row<T>(bodies: Seq<T>, masks: Seq<T>, m: nat, n: nat, q: int)
    requires
        rows_match(bodies, masks, m, n),
        0 <= q < row_count(bodies, n),
    ensures
        decompressed_rows(bodies, masks, m, n).subrange(q * (m + n), q * (m + n) + m)
            == masks.subrange(q * m, q * m + m),
        decompressed_rows(bodies, masks, m, n).subrange(q * (m + n) + m, (q + 1) * (m + n))
            == bodies.subrange(q * n, q * n + n),
{
    let w = m + n;
    let r = row_count(bodies, n);
    let out = decompressed_rows(bodies, masks, m, n);
    assert((q + 1) * w == q * w + w && q * w + w <= r * w && q * w >= 0) by (nonlinear_arith)
        requires
            0 <= q < r,
    ;
    assert(q * m + m <= r * m && q * n + n <= r * n && q * m >= 0 && q * n >= 0)
        by (nonlinear_arith)
        requires
            0 <= q < r,
    ;
    vstd::arithmetic::div_mod::lemma_fundamental_div_mod(bodies.len() as int, n as int);
    assert(bodies.len() == r * n) by (nonlinear_arith)
        requires
            bodies.len() == n * r + 0,
    ;
    let out_masks = out.subrange(q * w, q * w + m);
    let out_body = out.subrange(q * w + m, (q + 1) * w);
    assert forall|i: int| 0 <= i < m implies #[trigger] out_masks[i] == masks[q * m + i] by {
        lemma_row_position(q, i, m, n);
    }
    assert forall|k: int| 0 <= k < n implies #[trigger] out_body[k] == bodies[q * n + k] by {
        lemma_row_position(q, m + k, m, n);
    }
    assert(out.subrange(q * w, q * w + m) =~= masks.subrange(q * m, q * m + m));
    assert(out.subrange(q * w + m, (q + 1) * w) =~= bodies.subrange(q * n, q * n + n));
}

/// Decompression works row by row: decompressing two runs of rows one after the
/// other gives the two decompressed runs one after the other.
pub proof fn lemma_decompressed_rows_split<T>(
    bodies1: Seq<T>,
    masks1: Seq<T>,
    bodies2: Seq<T>,
    masks2: Seq<T>,
    m: nat,
    n: nat,
)
    requires
        rows_match(bodies1, masks1, m, n),
        rows_match(bodies2, masks2, m, n),
    ensures
        rows_match(bodies1 + bodies2, masks1 + masks2, m, n),
        decompressed_rows(bodies1 + bodies2, masks1 + masks2, m, n) == decompressed_rows(
            bodies1,
            masks1,
            m,
            n,
        ) + decompressed_rows(bodies2, masks2, m, n),
{
    let w = m + n;
    let r1 = row_count(bodies1, n);
    let r2 = row_count(bodies2, n);
    let b = bodies1 + bodies2;
    let k = masks1 + masks2;
    vstd::arithmetic::div_mod::lemma_fundamental_div_mod(bodies1.len() as int, n as int);
    vstd::arithmetic::div_mod::lemma_fundamental_div_mod(bodies2.len() as int, n as int);
    assert(bodies1.len() == r1 * n) by (nonlinear_arith)
        requires
            bodies1.len() == n * r1 + 0,
    ;
    assert(bodies2.len() == r2 * n) by (nonlinear_arith)
        requires
            bodies2.len() == n * r2 + 0,
    ;
    assert(b.len() == (r1 + r2) * n) by (nonlinear_arith)
        requires
            b.len() == bodies1.len() + bodies2.len(),
            bodies1.len() == r1 * n,
            bodies2.len() == r2 * n,
    ;
    lemma_fundamental_div_mod_converse(b.len() as int, n as int, (r1 + r2) as int, 0);
    assert(row_count(b, n) == r1 + r2);
    assert(k.len() == (r1 + r2) * m) by (nonlinear_arith)
        requires
            k.len() == masks1.len() + masks2.len(),
            masks1.len() == r1 * m,
            masks2.len() == r2 * m,
    ;
    assert((r1 + r2) * w == r1 * w + r2 * w) by (nonlinear_arith);
    let whole = decompressed_rows(b, k, m, n);
    let left = decompressed_rows(bodies1, masks1, m, n);
    let right = decompressed_rows(bodies2, masks2, m, n);
    assert forall|j: int| 0 <= j < whole.len() implies #[trigger] whole[j] == (left + right)[j] by {
        let q = j / w as int;
        let i = j % w as int;
        vstd::arithmetic::div_mod::lemma_fundamental_div_mod(j, w as int);
        vstd::arithmetic::div_mod::lemma_mod_pos_bound(j, w as int);
        if j < r1 * w {
            assert(q < r1) by (nonlinear_arith)
                requires
                    j == w * q + i,
                    0 <= i,
                    j < r1 * w,
                    w > 0,
            ;
            assert(q >= 0) by (nonlinear_arith)
                requires
                    j == w * q + i,
                    0 <= j,
                    i < w,
                    w > 0,
            ;
            assert(q * m + m <= r1 * m && q * n + n <= r1 * n) by (nonlinear_arith)
                requires
                    q < r1,
            ;
            assert(q * m >= 0 && q * n >= 0) by (nonlinear_arith)
                requires
                    q >= 0,
            ;
        } else {
            let jr = j - r1 * w;
            let qr = jr / w as int;
            let ir = jr % w as int;
            vstd::arithmetic::div_mod::lemma_fundamental_div_mod(jr, w as int);
            vstd::arithmetic::div_mod::lemma_mod_pos_bound(jr, w as int);
            assert(j == (qr + r1) * w + ir) by (nonlinear_arith)
                requires
                    jr == w * qr + ir,
                    jr == j - r1 * w,
            ;
            assert(qr >= 0) by (nonlinear_arith)
                requires
                    jr == w * qr + ir,
                    0 <= jr,
                    ir < w,
                    w > 0,
            ;
            lemma_fundamental_div_mod_converse(j, w as int, qr + r1, ir);
            assert(qr < r2) by (nonlinear_arith)
                requires
                    jr == w * qr + ir,
                    0 <= ir,
                    jr < r2 * w,
                    w > 0,
            ;
            assert(q * m == r1 * m + qr * m && q * n == r1 * n + qr * n) by (nonlinear_arith)
                requires
                    q == qr + r1,
            ;
            assert(qr * m + m <= r2 * m && qr * n + n <= r2 * n) by (nonlinear_arith)
                requires
                    qr < r2,
            ;
            assert(qr * m >= 0 && qr * n >= 0) by (nonlinear_arith)
                requires
                    qr >= 0,
            ;
        }
    }
    assert(whole =~= left + right);
}

/// Write every row out in full: for each row, its `m` mask elements taken in order
/// from `masks`, then its `n` body elements.
pub fn decompress_rows<T: Copy>(bodies: &[T], masks: &[T], m: usize, n: usize) -> (out: Vec<T>)
    requires
        rows_match(bodies@, masks@, m as nat, n as nat),
        m + n <= usize::MAX,
        row_count(bodies@, n as nat) * (m + n) <= usize::MAX,
    ensures
        out@ == decompressed_rows(bodies@, masks@, m as nat, n as nat),
{
    let rows = bodies.len() / n;
    let width = m + n;
    let ghost total = rows * width;
    proof {
        vstd::arithmetic::div_mod::lemma_fundamental_div_mod(bodies.len() as int, n as int);
        vstd::arithmetic::mul::lemma_mul_is_commutative(rows as int, n as int);
        assert(bodies.len() == rows * n);
    }
    let mut out: Vec<T> = Vec::new();
    let mut q: usize = 0;
    let mut mask_start: usize = 0;
    let mut body_start: usize = 0;
    while q < rows
        invariant
            rows == row_count(bodies@, n as nat),
            bodies.len() == rows * n,
            rows_match(bodies@, masks@, m as nat, n as nat),
            width == m + n,
            rows * width <= usize::MAX,
            q <= rows,
            mask_start == q * m,
            body_start == q * n,
            out.len() == q * width,
            forall|j: int|
                0 <= j < out.len() ==> #[trigger] out@[j] == decompressed_at(
                    bodies@,
                    masks@,
                    m as nat,
                    n as nat,
                    j,
                ),
        decreases rows - q,
    {
        proof {
            assert((q + 1) * m <= rows * m && (q + 1) * n <= rows * n && (q + 1) * width <= rows
                * width) by (nonlinear_arith)
                requires
                    q + 1 <= rows,
            ;
            assert((q + 1) * m == q * m + m && (q + 1) * n == q * n + n && (q + 1) * width == q
                * width + width) by (nonlinear_arith);
        }
        let mut i: usize = 0;
        while i < m
            invariant
                rows_match(bodies@, masks@, m as nat, n as nat),
                width == m + n,
                q < rows,
                (q + 1) * m <= rows * m,
                (q + 1) * width <= rows * width,
                rows * width <= usize::MAX,
                masks.len() == rows * m,
                mask_start == q * m,
                (q + 1) * m == q * m + m,
                (q + 1) * width == q * width + width,
                i <= m,
                out.len() == q * width + i,
                forall|j: int|
                    0 <= j < out.len() ==> #[trigger] out@[j] == decompressed_at(
                        bodies@,
                        masks@,
                        m as nat,
                        n as nat,
                        j,
                    ),
            decreases m - i,
        {
            proof {
                lemma_row_position(q as int, i as int, m as nat, n as nat);
            }
            out.push(masks[mask_start + i]);
            i = i + 1;
        }
        let mut k: usize = 0;
        while k < n
            invariant
                rows_match(bodies@, masks@, m as nat, n as nat),
                width == m + n,
                q < rows,
                (q + 1) * n <= rows * n,
                (q + 1) * width <= rows * width,
                rows * width <= usize::MAX,
                bodies.len() == rows * n,
                body_start == q * n,
                (q + 1) * n == q * n + n,
                (q + 1) * width == q * width + width,
                k <= n,
                out.len() == q * width + m + k,
                forall|j: int|
                    0 <= j < out.len() ==> #[trigger] out@[j] == decompressed_at(
                        bodies@,
                        masks@,
                        m as nat,
                        n as nat,
                        j,
                    ),
            decreases n - k,
        {
            proof {
                lemma_row_position(q as int, (m + k) as int, m as nat, n as nat);
            }
            out.push(bodies[body_start + k]);
            k = k + 1;
        }
        mask_start = mask_start + m;
        body_start = body_start + n;
        q = q + 1;
    }
    proof {
        assert(out@ =~= decompressed_rows(bodies@, masks@, m as nat, n as nat));
    }
    out
}

} // verus!
