//! The mathematics of the chunked transfer loop: the sequence of chunk sizes
//! a transfer of `total` bytes is split into under a fixed chunk capacity,
//! and the laws that the loop in `engine` is proved to follow — chunk count,
//! the size of every chunk, and that the sizes sum to the whole data section.

use vstd::prelude::*;
use vstd::arithmetic::div_mod::lemma_fundamental_div_mod_converse;
use vstd::arithmetic::div_mod::lemma_mod_sub_multiples_vanish;
use vstd::arithmetic::div_mod::lemma_small_mod;

verus! {

/// The smaller of two integers.
pub open spec fn spec_min(a: int, b: int) -> int {
    if a <= b {
        a
    } else {
        b
    }
}

/// The sizes of the chunks a transfer of `total` bytes is split into when
/// every read fills as much of the capacity `cap` as the remaining bytes
/// allow: full chunks of `cap` bytes, then one final chunk with the rest.
pub open spec fn chunk_schedule(total: int, cap: int) -> Seq<int>
    decreases total,
{
    if cap <= 0 || total <= 0 {
        Seq::empty()
    } else if total <= cap {
        seq![total]
    } else {
        seq![cap] + chunk_schedule(total - cap, cap)
    }
}

/// The sum of a sequence of integers.
pub open spec fn sum_of(s: Seq<int>) -> int
    decreases s.len(),
{
    if s.len() == 0 {
        0
    } else {
        s[0] + sum_of(s.drop_first())
    }
}

proof fn lemma_sum_of_cons(x: int, s: Seq<int>)
    ensures
        sum_of(seq![x] + s) == x + sum_of(s),
{
    let c = seq![x] + s;
    assert(c.len() > 0);
    assert(c[0] == x);
    assert(c.drop_first() =~= s);
}

/// Every scheduled chunk is the smaller of the capacity and what is left
/// after the chunks before it: chunk `i` has exactly
/// `min(cap, total - i * cap)` bytes, and every chunk is nonempty.
pub proof fn lemma_schedule_index(total: int, cap: int, i: int)
    requires
        0 < cap,
        0 <= i < chunk_schedule(total, cap).len(),
    ensures
        chunk_schedule(total, cap)[i] == spec_min(cap, total - i * cap),
        0 < chunk_schedule(total, cap)[i] <= cap,
    decreases i,
{
    let s = chunk_schedule(total, cap);
    if total <= 0 {
        assert(false);
    } else if total <= cap {
        assert(s =~= seq![total]);
        assert(i == 0);
    } else {
        let rest = chunk_schedule(total - cap, cap);
        assert(s == seq![cap] + rest);
        if i == 0 {
            assert(s[0] == cap);
        } else {
            assert(s[i] == rest[i - 1]);
            lemma_schedule_index(total - cap, cap, i - 1);
            assert((total - cap) - (i - 1) * cap == total - i * cap) by (nonlinear_arith);
        }
    }
}

/// The number of scheduled chunks, characterized by inequalities: the chunks
/// before the last do not cover `total`, and all of them together do.
pub proof fn lemma_schedule_len(total: int, cap: int)
    requires
        0 < cap,
        0 < total,
    ensures
        0 < chunk_schedule(total, cap).len(),
        (chunk_schedule(total, cap).len() - 1) * cap < total,
        total <= chunk_schedule(total, cap).len() * cap,
    decreases total,
{
    let n = chunk_schedule(total, cap).len() as int;
    if total <= cap {
        assert(n == 1);
        assert((n - 1) * cap == 0) by (nonlinear_arith)
            requires
                n == 1,
        ;
        assert(n * cap == cap) by (nonlinear_arith)
            requires
                n == 1,
        ;
    } else {
        lemma_schedule_len(total - cap, cap);
        let m = chunk_schedule(total - cap, cap).len() as int;
        assert(n == m + 1);
        assert((m - 1) * cap < total - cap ==> (n - 1) * cap < total) by (nonlinear_arith)
            requires
                n == m + 1,
        ;
        assert(total - cap <= m * cap ==> total <= n * cap) by (nonlinear_arith)
            requires
                n == m + 1,
        ;
    }
}

/// The number of scheduled chunks equals the ceiling of `total / cap`.
pub proof fn lemma_schedule_count(total: int, cap: int)
    requires
        0 < cap,
        0 < total,
    ensures
        chunk_schedule(total, cap).len() == (total + cap - 1) / cap,
{
    lemma_schedule_len(total, cap);
    let n = chunk_schedule(total, cap).len() as int;
    let r = total + cap - 1 - n * cap;
    assert((n - 1) * cap == n * cap - cap) by (nonlinear_arith);
    assert(0 <= r < cap);
    lemma_fundamental_div_mod_converse(total + cap - 1, cap, n, r);
}

/// The scheduled chunks together move exactly `total` bytes.
pub proof fn lemma_schedule_sum(total: int, cap: int)
    requires
        0 < cap,
        0 <= total,
    ensures
        sum_of(chunk_schedule(total, cap)) == total,
    decreases total,
{
    if total == 0 {
    } else if total <= cap {
        assert(chunk_schedule(total, cap) =~= seq![total]);
        lemma_sum_of_cons(total, Seq::empty());
        assert(seq![total] + Seq::<int>::empty() =~= seq![total]);
    } else {
        let rest = chunk_schedule(total - cap, cap);
        lemma_schedule_sum(total - cap, cap);
        lemma_sum_of_cons(cap, rest);
    }
}

/// The size of the final scheduled chunk: `total % cap`, or a full `cap`
/// when the capacity divides the data size evenly.
pub proof fn lemma_schedule_last(total: int, cap: int)
    requires
        0 < cap,
        0 < total,
    ensures
        chunk_schedule(total, cap).last() == (if total % cap == 0 {
            cap
        } else {
            total % cap
        }),
    decreases total,
{
    if total <= cap {
        assert(chunk_schedule(total, cap) =~= seq![total]);
        if total == cap {
            lemma_mod_sub_multiples_vanish(total, cap);
            lemma_small_mod(0nat, cap as nat);
        } else {
            lemma_small_mod(total as nat, cap as nat);
        }
    } else {
        let rest = chunk_schedule(total - cap, cap);
        lemma_schedule_last(total - cap, cap);
        lemma_schedule_len(total - cap, cap);
        assert((seq![cap] + rest).last() == rest.last());
        lemma_mod_sub_multiples_vanish(total, cap);
        assert((-cap + total) % cap == (total - cap) % cap);
    }
}

/// After the first `i` scheduled chunks, exactly `min(i * cap, total)` bytes
/// have been consumed: the cumulative progress of the transfer loop.
pub proof fn lemma_schedule_prefix_sum(total: int, cap: int, i: int)
    requires
        0 < cap,
        0 <= total,
        0 <= i <= chunk_schedule(total, cap).len(),
    ensures
        sum_of(chunk_schedule(total, cap).take(i)) == spec_min(i * cap, total),
    decreases i,
{
    let s = chunk_schedule(total, cap);
    if i == 0 {
        assert(s.take(0) =~= Seq::empty());
        assert(0 * cap == 0) by (nonlinear_arith);
    } else {
        assert(total > 0);
        if total <= cap {
            assert(s =~= seq![total]);
            assert(i == 1);
            assert(s.take(1) =~= seq![total]);
            lemma_sum_of_cons(total, Seq::empty());
            assert(seq![total] + Seq::<int>::empty() =~= seq![total]);
            assert(1 * cap == cap) by (nonlinear_arith);
        } else {
            let rest = chunk_schedule(total - cap, cap);
            assert(s == seq![cap] + rest);
            assert(s.take(i) =~= seq![cap] + rest.take(i - 1));
            lemma_sum_of_cons(cap, rest.take(i - 1));
            lemma_schedule_prefix_sum(total - cap, cap, i - 1);
            assert(cap + spec_min((i - 1) * cap, total - cap) == spec_min(i * cap, total))
                by (nonlinear_arith)
                requires
                    0 < cap,
                    cap < total,
                    0 < i,
            ;
        }
    }
}

/// Law: when the bytes consumed so far equal the sum of the first `i`
/// scheduled chunks, the next read the loop requests — the smaller of the
/// capacity and the remaining bytes — is exactly scheduled chunk `i`.
pub proof fn lemma_schedule_step(total: int, cap: int, i: int)
    requires
        0 < cap,
        0 <= total,
        0 <= i < chunk_schedule(total, cap).len(),
    ensures
        spec_min(cap, total - sum_of(chunk_schedule(total, cap).take(i))) == chunk_schedule(
            total,
            cap,
        )[i],
{
    let s = chunk_schedule(total, cap);
    assert(total > 0);
    lemma_schedule_prefix_sum(total, cap, i);
    lemma_schedule_len(total, cap);
    assert(i * cap <= (s.len() - 1) * cap) by (nonlinear_arith)
        requires
            0 < cap,
            i <= s.len() - 1,
    ;
    assert(sum_of(s.take(i)) == i * cap);
    lemma_schedule_index(total, cap, i);
}

/// Law: a transfer of `total` bytes with chunk capacity `cap` takes exactly
/// `ceil(total / cap)` writes; the last write moves `total % cap` bytes
/// (a full `cap` when the capacity divides the size evenly); and the write
/// sizes sum to exactly `total`.
pub proof fn lemma_transfer_schedule(total: int, cap: int)
    requires
        0 < cap,
        0 < total,
    ensures
        chunk_schedule(total, cap).len() == (total + cap - 1) / cap,
        sum_of(chunk_schedule(total, cap)) == total,
        chunk_schedule(total, cap).last() == (if total % cap == 0 {
            cap
        } else {
            total % cap
        }),
{
    lemma_schedule_count(total, cap);
    lemma_schedule_sum(total, cap);
    lemma_schedule_last(total, cap);
}

} // verus!
