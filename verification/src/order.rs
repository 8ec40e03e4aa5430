//! The order of texts, decided: which of two texts comes first, and whether
//! a report stands in the order that it is asked for in. The engine orders
//! by the collation and the encoding of the database at hand, so the order
//! of what it returns is looked at here, row by row.

use vstd::prelude::*;
use vstd::string::*;
use crate::db::{days_of, history_of, profits_of, GameProfit, GameProfitByDay, GameTransaction};
use crate::model::{latest_day_first, latest_first, text_le, text_lt, users_ascending};

verus! {

/// Two texts that agree in their first `n` characters compare as what
/// follows those characters.
pub proof fn lemma_common_beginning(a: Seq<char>, b: Seq<char>, n: int)
    requires
        0 <= n <= a.len(),
        n <= b.len(),
        forall|k: int| 0 <= k < n ==> a[k] == b[k],
    ensures
        text_lt(a, b) == text_lt(a.skip(n), b.skip(n)),
    decreases n,
{
    if n == 0 {
        assert(a.skip(0) =~= a);
        assert(b.skip(0) =~= b);
    } else {
        let ra = a.skip(1);
        let rb = b.skip(1);
        assert(a[0] == b[0]);
        assert forall|k: int| 0 <= k < n - 1 implies ra[k] == rb[k] by {
            assert(a[k + 1] == b[k + 1]);
        }
        lemma_common_beginning(ra, rb, n - 1);
        assert(ra.skip(n - 1) =~= a.skip(n));
        assert(rb.skip(n - 1) =~= b.skip(n));
    }
}

/// Of two texts one comes before the other, or they are the same text, and
/// only one of the three holds.
pub proof fn lemma_text_order_total(a: Seq<char>, b: Seq<char>)
    ensures
        text_le(a, b) <==> !text_lt(b, a),
    decreases a.len(),
{
    if a.len() == 0 || b.len() == 0 {
        if a.len() == 0 && b.len() == 0 {
            assert(a =~= b);
        }
    } else if a[0] != b[0] {
        assert((a[0] as int) != (b[0] as int));
    } else {
        lemma_text_order_total(a.skip(1), b.skip(1));
        if a.skip(1) == b.skip(1) {
            assert(a =~= b) by {
                assert forall|i: int| 0 <= i < a.len() implies a[i] == b[i] by {
                    if i > 0 {
                        assert(a.skip(1)[i - 1] == a[i]);
                        assert(b.skip(1)[i - 1] == b[i]);
                    }
                }
                assert(a.skip(1).len() == b.skip(1).len());
            }
        }
        if a == b {
            assert(a.skip(1) == b.skip(1));
        }
    }
}

/// What comes before a text comes before all that the text comes before.
pub proof fn lemma_text_lt_transitive(a: Seq<char>, b: Seq<char>, c: Seq<char>)
    requires
        text_lt(a, b),
        text_lt(b, c),
    ensures
        text_lt(a, c),
    decreases a.len(),
{
    if a.len() > 0 {
        if a[0] == b[0] && b[0] == c[0] {
            lemma_text_lt_transitive(a.skip(1), b.skip(1), c.skip(1));
        }
    }
}

/// The same for "before or equal".
pub proof fn lemma_text_le_transitive(a: Seq<char>, b: Seq<char>, c: Seq<char>)
    requires
        text_le(a, b),
        text_le(b, c),
    ensures
        text_le(a, c),
{
    if a != b && b != c {
        lemma_text_lt_transitive(a, b, c);
    }
}

/// Whether `a` comes before `b`.
pub fn text_before(a: &str, b: &str) -> (r: bool)
    ensures
        r == text_lt(a@, b@),
{
    let la = a.unicode_len();
    let lb = b.unicode_len();
    let mut i: usize = 0;
    while i < la && i < lb
        invariant
            i <= la,
            i <= lb,
            la == a@.len(),
            lb == b@.len(),
            forall|k: int| 0 <= k < i ==> a@[k] == b@[k],
        decreases la - i,
    {
        let ca = a.get_char(i);
        let cb = b.get_char(i);
        if ca != cb {
            proof {
                lemma_common_beginning(a@, b@, i as int);
                assert(a@.skip(i as int)[0] == ca);
                assert(b@.skip(i as int)[0] == cb);
            }
            return (ca as u32) < (cb as u32);
        }
        i += 1;
    }
    proof {
        lemma_common_beginning(a@, b@, i as int);
    }
    i < lb
}

/// Whether `a` comes before `b` or is the same text.
pub fn text_not_after(a: &str, b: &str) -> (r: bool)
    ensures
        r == text_le(a@, b@),
{
    proof {
        lemma_text_order_total(a@, b@);
    }
    !text_before(b, a)
}

/// Whether the transactions stand the latest first.
pub fn is_latest_first(rows: &Vec<GameTransaction>) -> (r: bool)
    ensures
        r == latest_first(history_of(rows@)),
{
    let ghost out = history_of(rows@);
    let mut i: usize = 1;
    while i < rows.len()
        invariant
            1 <= i,
            out == history_of(rows@),
            forall|p: int, q: int|
                0 <= p < q < i && q < out.len() ==> text_le(
                    (#[trigger] out[q]).date,
                    (#[trigger] out[p]).date,
                ),
        decreases rows.len() - i,
    {
        if !text_not_after(rows[i].date.as_str(), rows[i - 1].date.as_str()) {
            assert(!text_le(out[i as int].date, out[i - 1].date));
            return false;
        }
        proof {
            assert forall|p: int, q: int| 0 <= p < q < i + 1 && q < out.len() implies text_le(
                (#[trigger] out[q]).date,
                (#[trigger] out[p]).date,
            ) by {
                if q == i && p < i - 1 {
                    lemma_text_le_transitive(out[q].date, out[i - 1].date, out[p].date);
                }
            }
        }
        i += 1;
    }
    true
}

/// Whether the users of the report stand in strictly ascending order.
pub fn is_users_ascending(rows: &Vec<GameProfit>) -> (r: bool)
    ensures
        r == users_ascending(profits_of(rows@)),
{
    let ghost out = profits_of(rows@);
    let mut i: usize = 1;
    while i < rows.len()
        invariant
            1 <= i,
            out == profits_of(rows@),
            forall|p: int, q: int|
                0 <= p < q < i && q < out.len() ==> text_lt(
                    (#[trigger] out[p]).user_id,
                    (#[trigger] out[q]).user_id,
                ),
        decreases rows.len() - i,
    {
        if !text_before(rows[i - 1].user_id.as_str(), rows[i].user_id.as_str()) {
            assert(!text_lt(out[i - 1].user_id, out[i as int].user_id));
            return false;
        }
        proof {
            assert forall|p: int, q: int| 0 <= p < q < i + 1 && q < out.len() implies text_lt(
                (#[trigger] out[p]).user_id,
                (#[trigger] out[q]).user_id,
            ) by {
                if q == i && p < i - 1 {
                    lemma_text_lt_transitive(out[p].user_id, out[i - 1].user_id, out[q].user_id);
                }
            }
        }
        i += 1;
    }
    true
}

/// Whether the lines of the daily report stand the latest day first.
pub fn is_latest_day_first(rows: &Vec<GameProfitByDay>) -> (r: bool)
    ensures
        r == latest_day_first(days_of(rows@)),
{
    let ghost out = days_of(rows@);
    let mut i: usize = 1;
    while i < rows.len()
        invariant
            1 <= i,
            out == days_of(rows@),
            forall|p: int, q: int|
                0 <= p < q < i && q < out.len() ==> text_le(
                    (#[trigger] out[q]).date,
                    (#[trigger] out[p]).date,
                ),
        decreases rows.len() - i,
    {
        if !text_not_after(rows[i].date.as_str(), rows[i - 1].date.as_str()) {
            assert(!text_le(out[i as int].date, out[i - 1].date));
            return false;
        }
        proof {
            assert forall|p: int, q: int| 0 <= p < q < i + 1 && q < out.len() implies text_le(
                (#[trigger] out[q]).date,
                (#[trigger] out[p]).date,
            ) by {
                if q == i && p < i - 1 {
                    lemma_text_le_transitive(out[q].date, out[i - 1].date, out[p].date);
                }
            }
        }
        i += 1;
    }
    true
}

} // verus!
