//! Laws of the model: what holds of plain tables and of the reports on
//! them, whichever way they came about.

use vstd::prelude::*;
use crate::db::{days_of, profits_of, GameProfit, GameProfitByDay};
use crate::model::{
    all_closed, all_dated, day_of, day_profit_overflows, day_total, distinct_days, fits_amount,
    game_added, largest_id, start_steps, step_effect, users_ascending, Step, Tables,
    game_started, is_active, is_grouped_by_day, is_history, is_ordered_by,
    is_ordered_by_some_date, is_profit, is_profit_by_day, is_timestamp, latest_day_first,
    lists_user_day, profit_overflows, text_le, text_lt, transaction_added, user_total,
    DayProfitRow, GameRow, ProfitRow, TransactionRow,
};

verus! {

/// The number of active games.
pub open spec fn active_count(games: Seq<GameRow>) -> int
    decreases games.len(),
{
    if games.len() == 0 {
        0
    } else {
        active_count(games.drop_last()) + if games.last().end_date is None {
            1int
        } else {
            0int
        }
    }
}

/// The sum of the amounts of the daily report's lines for `user`, over all
/// days.
pub open spec fn days_sum(out: Seq<DayProfitRow>, user: Seq<char>) -> int
    decreases out.len(),
{
    if out.len() == 0 {
        0
    } else {
        days_sum(out.drop_last(), user) + if out.last().user_id == user {
            out.last().amount
        } else {
            0
        }
    }
}

/// As `days_sum`, with each line's amount taken from the table.
spec fn totals_sum(out: Seq<DayProfitRow>, rows: Seq<TransactionRow>, user: Seq<char>) -> int
    decreases out.len(),
{
    if out.len() == 0 {
        0
    } else {
        totals_sum(out.drop_last(), rows, user) + if out.last().user_id == user {
            day_total(rows, user, out.last().date)
        } else {
            0
        }
    }
}

/// `amount` once for each line of `user` on `day`.
spec fn hits(out: Seq<DayProfitRow>, user: Seq<char>, day: Seq<char>, amount: int) -> int
    decreases out.len(),
{
    if out.len() == 0 {
        0
    } else {
        hits(out.drop_last(), user, day, amount) + if out.last().user_id == user && out.last().date
            == day {
            amount
        } else {
            0
        }
    }
}

/// Every transaction has its line.
spec fn covers(rows: Seq<TransactionRow>, out: Seq<DayProfitRow>) -> bool {
    forall|k: int|
        0 <= k < rows.len() ==> lists_user_day(
            out,
            (#[trigger] rows[k]).user_id,
            day_of(rows[k].date),
        )
}

/// Where every game has an end date none is active.
proof fn lemma_no_active_game(games: Seq<GameRow>)
    requires
        forall|i: int| 0 <= i < games.len() ==> (#[trigger] games[i]).end_date is Some,
    ensures
        active_count(games) == 0,
    decreases games.len(),
{
    if games.len() > 0 {
        let rest = games.drop_last();
        assert forall|i: int| 0 <= i < rest.len() implies (#[trigger] rest[i]).end_date is Some by {
            assert(rest[i] == games[i]);
        }
        lemma_no_active_game(rest);
    }
}

/// After a game has been started exactly one game is active, the new one,
/// and every game that was there before is closed.
pub proof fn lemma_one_active_game(before: Seq<GameRow>, after: Seq<GameRow>, description: Seq<char>)
    requires
        game_started(before, after, description),
    ensures
        active_count(after) == 1,
        after.last().end_date is None,
        forall|i: int| 0 <= i < before.len() ==> (#[trigger] after[i]).end_date is Some,
{
    let rest = after.drop_last();
    assert(is_active(after, after.len() - 1));
    assert forall|i: int| 0 <= i < rest.len() implies (#[trigger] rest[i]).end_date is Some by {
        assert(rest[i] == after[i]);
        assert(!is_active(after, i));
    }
    lemma_no_active_game(rest);
    assert forall|i: int| 0 <= i < before.len() implies (#[trigger] after[i]).end_date is Some by {
        assert(!is_active(after, i));
    }
}

/// However many games are started one after the other, after each of them
/// exactly one game is active.
pub proof fn lemma_always_one_active_game(
    states: Seq<Seq<GameRow>>,
    descriptions: Seq<Seq<char>>,
    n: int,
)
    requires
        states.len() == descriptions.len() + 1,
        forall|i: int|
            0 <= i < descriptions.len() ==> game_started(
                #[trigger] states[i],
                states[i + 1],
                descriptions[i],
            ),
        1 <= n < states.len(),
    ensures
        active_count(states[n]) == 1,
        states[n].len() == states[0].len() + n,
    decreases n,
{
    assert(game_started(states[n - 1], states[n], descriptions[n - 1]));
    lemma_one_active_game(states[n - 1], states[n], descriptions[n - 1]);
    if n > 1 {
        lemma_always_one_active_game(states, descriptions, n - 1);
    }
}

/// The largest identifier is one of the games' identifiers, and none is
/// larger.
pub proof fn lemma_largest_id(games: Seq<GameRow>)
    requires
        games.len() > 0,
    ensures
        forall|k: int| 0 <= k < games.len() ==> (#[trigger] games[k]).id <= largest_id(games),
        exists|k: int| 0 <= k < games.len() && (#[trigger] games[k]).id == largest_id(games),
    decreases games.len(),
{
    if games.len() == 1 {
        assert(games[0].id == largest_id(games));
    } else {
        let rest = games.drop_last();
        lemma_largest_id(rest);
        let w = choose|k: int| 0 <= k < rest.len() && (#[trigger] rest[k]).id == largest_id(rest);
        assert(rest[w] == games[w]);
        let n = games.len() - 1;
        if games.last().id > largest_id(rest) {
            assert(games[n].id == largest_id(games));
        } else {
            assert(games[w].id == largest_id(games));
        }
        assert forall|k: int| 0 <= k < games.len() implies (#[trigger] games[k]).id <= largest_id(
            games,
        ) by {
            if k < n {
                assert(rest[k] == games[k]);
            }
        }
    }
}

/// An added game has a larger identifier than every game before it, as
/// long as none of them holds the largest identifier there is.
pub proof fn lemma_added_id_is_larger(
    before: Seq<GameRow>,
    after: Seq<GameRow>,
    description: Seq<char>,
    id: int,
)
    requires
        game_added(before, after, description, id),
        forall|k: int| 0 <= k < before.len() ==> (#[trigger] before[k]).id < i64::MAX,
    ensures
        forall|k: int| 0 <= k < before.len() ==> (#[trigger] before[k]).id < id,
{
    if before.len() > 0 {
        lemma_largest_id(before);
    }
}

/// In a database without games the first game gets the identifier 1 and
/// the second 2.
pub proof fn lemma_first_identifiers(
    g0: Seq<GameRow>,
    g1: Seq<GameRow>,
    g2: Seq<GameRow>,
    d1: Seq<char>,
    d2: Seq<char>,
    id1: int,
    id2: int,
)
    requires
        g0.len() == 0,
        game_added(g0, g1, d1, id1),
        game_added(g1, g2, d2, id2),
    ensures
        id1 == 1,
        id2 == 2,
{
    assert(g1[0].id == id1);
}

/// Closing the active games and then adding a game is starting a game.
pub proof fn lemma_close_then_add_starts(
    before: Seq<GameRow>,
    closed: Seq<GameRow>,
    after: Seq<GameRow>,
    description: Seq<char>,
    id: int,
)
    requires
        all_closed(before, closed),
        game_added(closed, after, description, id),
    ensures
        game_started(before, after, description),
        after.last().id == id,
{
    assert forall|k: int| 0 <= k < before.len() implies (#[trigger] before[k]).id
        != after.last().id by {
        assert(closed[k].id == before[k].id);
    }
    if forall|k: int| 0 <= k < before.len() ==> (#[trigger] before[k]).id < i64::MAX {
        assert forall|k: int| 0 <= k < closed.len() implies (#[trigger] closed[k]).id
            < i64::MAX by {
            assert(closed[k].id == before[k].id);
        }
        lemma_added_id_is_larger(closed, after, description, id);
        assert forall|k: int| 0 <= k < before.len() implies (#[trigger] before[k]).id
            < after.last().id by {
            assert(closed[k].id == before[k].id);
        }
    }
    assert forall|i: int| 0 <= i < after.len() implies (is_active(after, i) <==> i == after.len()
        - 1) by {
        if i < after.len() - 1 {
            assert(after[i] == closed[i]);
            assert(closed[i].end_date is Some);
        }
    }
}

/// Starting a game, as its two units of work leave the tables: the earlier
/// games are all closed, the new game is the only active one, and no
/// transaction is touched.
pub proof fn lemma_start_steps_start_a_game(
    before: Tables,
    between: Tables,
    after: Tables,
    description: Seq<char>,
    id: int,
)
    requires
        step_effect(before, start_steps(description, id)[0], between),
        step_effect(between, start_steps(description, id)[1], after),
    ensures
        game_started(before.games, after.games, description),
        active_count(after.games) == 1,
        after.transactions == before.transactions,
{
    lemma_close_then_add_starts(before.games, between.games, after.games, description, id);
    lemma_one_active_game(before.games, after.games, description);
}

/// Of two games created one after the other the second has the larger
/// identifier, as long as no stored game holds the largest identifier
/// there is.
pub proof fn lemma_new_game_ids_increase(
    g0: Seq<GameRow>,
    g1: Seq<GameRow>,
    g2: Seq<GameRow>,
    d1: Seq<char>,
    d2: Seq<char>,
    id1: int,
    id2: int,
)
    requires
        game_added(g0, g1, d1, id1),
        game_added(g1, g2, d2, id2),
        forall|k: int| 0 <= k < g1.len() ==> (#[trigger] g1[k]).id < i64::MAX,
    ensures
        id1 < id2,
{
    lemma_added_id_is_larger(g1, g2, d2, id2);
    assert(g1[g1.len() - 1].id == id1);
}

/// A saved transaction adds its amount to its user's total, whatever its
/// game, and leaves every other user's total as it was.
pub proof fn lemma_saved_amount_adds_to_total(
    before: Seq<TransactionRow>,
    after: Seq<TransactionRow>,
    game_id: int,
    user_id: Seq<char>,
    amount: int,
    other: Seq<char>,
)
    requires
        transaction_added(before, after, game_id, user_id, amount),
    ensures
        user_total(after, user_id) == user_total(before, user_id) + amount,
        other != user_id ==> user_total(after, other) == user_total(before, other),
{
}

/// A table in which every date is a timestamp stays one when a
/// transaction is saved.
pub proof fn lemma_saving_keeps_dates(
    before: Seq<TransactionRow>,
    after: Seq<TransactionRow>,
    game_id: int,
    user_id: Seq<char>,
    amount: int,
)
    requires
        transaction_added(before, after, game_id, user_id, amount),
        all_dated(before),
    ensures
        all_dated(after),
{
    assert forall|k: int| 0 <= k < after.len() implies is_timestamp(#[trigger] after[k].date) by {
        if k < before.len() {
            assert(after[k] == before[k]);
        }
    }
}

/// No text comes before itself.
pub proof fn lemma_text_lt_irreflexive(a: Seq<char>)
    ensures
        !text_lt(a, a),
    decreases a.len(),
{
    if a.len() > 0 {
        lemma_text_lt_irreflexive(a.skip(1));
    }
}

/// A report whose users ascend has one line for a user, never two.
pub proof fn lemma_profit_lists_each_user_once(profit: Seq<ProfitRow>, i: int, j: int)
    requires
        users_ascending(profit),
        0 <= i < profit.len(),
        0 <= j < profit.len(),
        i != j,
    ensures
        profit[i].user_id != profit[j].user_id,
{
    lemma_text_lt_irreflexive(profit[i].user_id);
    if i < j {
        assert(text_lt(profit[i].user_id, profit[j].user_id));
    } else {
        assert(text_lt(profit[j].user_id, profit[i].user_id));
    }
}

/// The list of all transactions has as many rows as the table, and a row
/// is in the one exactly if it is in the other.
pub proof fn lemma_history_keeps_every_row(rows: Seq<TransactionRow>, history: Seq<TransactionRow>)
    requires
        is_history(rows, history),
    ensures
        history.len() == rows.len(),
        forall|t: TransactionRow| history.contains(t) <==> rows.contains(t),
{
    rows.to_multiset_ensures();
    history.to_multiset_ensures();
    assert forall|t: TransactionRow| history.contains(t) <==> rows.contains(t) by {
        assert(history.contains(t) <==> history.to_multiset().count(t) > 0);
        assert(rows.contains(t) <==> rows.to_multiset().count(t) > 0);
    }
}

/// Cutting two texts to their first `n` characters keeps their order.
pub proof fn lemma_prefixes_keep_order(a: Seq<char>, b: Seq<char>, n: int)
    requires
        text_le(a, b),
        0 <= n <= a.len(),
        n <= b.len(),
    ensures
        text_le(a.take(n), b.take(n)),
    decreases n,
{
    let pa = a.take(n);
    let pb = b.take(n);
    if n == 0 || a == b {
        assert(pa =~= pb);
    } else if a[0] != b[0] {
        assert(pa[0] == a[0] && pb[0] == b[0]);
    } else {
        lemma_prefixes_keep_order(a.skip(1), b.skip(1), n - 1);
        assert(pa.skip(1) =~= a.skip(1).take(n - 1));
        assert(pb.skip(1) =~= b.skip(1).take(n - 1));
        assert(pa[0] == pb[0]);
        if pa.skip(1) == pb.skip(1) {
            assert(pa =~= pb) by {
                assert forall|i: int| 0 <= i < n implies pa[i] == pb[i] by {
                    if i > 0 {
                        assert(pa.skip(1)[i - 1] == pa[i]);
                        assert(pb.skip(1)[i - 1] == pb[i]);
                    }
                }
            }
        }
    }
}

/// A report whose lines are ordered by a date of each group, the latest
/// first, has the later day before the earlier one: the day of a timestamp
/// is its beginning, and cutting keeps the order.
pub proof fn lemma_days_follow_dates(rows: Seq<TransactionRow>, out: Seq<DayProfitRow>)
    requires
        all_dated(rows),
        is_ordered_by_some_date(rows, out),
    ensures
        latest_day_first(out),
{
    let dates = choose|dates: Seq<Seq<char>>| is_ordered_by(rows, out, dates);
    assert forall|i: int| 0 <= i < out.len() implies is_timestamp(#[trigger] dates[i]) by {
        let u = out[i].user_id;
        let k = choose|k: int|
            0 <= k < rows.len() && (#[trigger] rows[k]).user_id == u && rows[k].date == dates[i];
        assert(is_timestamp(rows[k].date));
    }
    assert forall|i: int, j: int| 0 <= i < j < out.len() implies text_le(
        (#[trigger] out[j]).date,
        (#[trigger] out[i]).date,
    ) by {
        assert(is_timestamp(dates[i]) && is_timestamp(dates[j]));
        assert(text_le(dates[j], dates[i]));
        lemma_prefixes_keep_order(dates[j], dates[i], 10);
    }
}

/// A profit report exists only of a table in which every user's total can
/// be held as an amount: the report holds each of them.
pub proof fn lemma_reported_totals_fit(rows: Seq<TransactionRow>, report: Seq<GameProfit>)
    requires
        is_profit(rows, profits_of(report)),
    ensures
        !profit_overflows(rows),
{
    let out = profits_of(report);
    assert forall|k: int| 0 <= k < rows.len() implies fits_amount(
        user_total(rows, (#[trigger] rows[k]).user_id),
    ) by {
        let user = rows[k].user_id;
        let i = choose|i: int| 0 <= i < out.len() && (#[trigger] out[i]).user_id == user;
        assert(out[i] == report[i]@);
        assert(out[i].amount == user_total(rows, out[i].user_id));
    }
}

/// A daily profit report exists only of a table in which every user's total
/// of every day can be held as an amount.
pub proof fn lemma_reported_day_totals_fit(rows: Seq<TransactionRow>, report: Seq<GameProfitByDay>)
    requires
        is_grouped_by_day(rows, days_of(report)),
    ensures
        !day_profit_overflows(rows),
{
    let out = days_of(report);
    assert forall|k: int| 0 <= k < rows.len() implies fits_amount(
        day_total(rows, (#[trigger] rows[k]).user_id, day_of(rows[k].date)),
    ) by {
        let user = rows[k].user_id;
        let day = day_of(rows[k].date);
        let i = choose|i: int|
            0 <= i < out.len() && (#[trigger] out[i]).user_id == user && out[i].date == day;
        assert(out[i] == report[i]@);
        assert(out[i].amount == day_total(rows, out[i].user_id, out[i].date));
    }
}

/// Where each line holds the sum that the table gives for it, the two sums
/// over the lines agree.
proof fn lemma_amounts_from_table(out: Seq<DayProfitRow>, rows: Seq<TransactionRow>, user: Seq<char>)
    requires
        forall|i: int|
            0 <= i < out.len() ==> (#[trigger] out[i]).amount == day_total(
                rows,
                out[i].user_id,
                out[i].date,
            ),
    ensures
        days_sum(out, user) == totals_sum(out, rows, user),
    decreases out.len(),
{
    if out.len() > 0 {
        let rest = out.drop_last();
        assert forall|i: int| 0 <= i < rest.len() implies (#[trigger] rest[i]).amount == day_total(
            rows,
            rest[i].user_id,
            rest[i].date,
        ) by {
            assert(rest[i] == out[i]);
        }
        lemma_amounts_from_table(rest, rows, user);
        assert(out.last() == out[out.len() - 1]);
    }
}

/// Over a table without rows every line sums to nothing.
proof fn lemma_empty_table_sums_to_zero(out: Seq<DayProfitRow>, rows: Seq<TransactionRow>, user: Seq<char>)
    requires
        rows.len() == 0,
    ensures
        totals_sum(out, rows, user) == 0,
    decreases out.len(),
{
    if out.len() > 0 {
        lemma_empty_table_sums_to_zero(out.drop_last(), rows, user);
    }
}

/// What the last row of the table adds to the sum over the lines: its
/// amount, once for each line of its user and day.
proof fn lemma_one_more_row(out: Seq<DayProfitRow>, rows: Seq<TransactionRow>, user: Seq<char>)
    requires
        rows.len() > 0,
    ensures
        totals_sum(out, rows, user) == totals_sum(out, rows.drop_last(), user) + if rows.last().user_id
            == user {
            hits(out, user, day_of(rows.last().date), rows.last().amount)
        } else {
            0
        },
    decreases out.len(),
{
    if out.len() > 0 {
        lemma_one_more_row(out.drop_last(), rows, user);
    }
}

/// Without a line for the user and day nothing is counted.
proof fn lemma_no_hit(out: Seq<DayProfitRow>, user: Seq<char>, day: Seq<char>, amount: int)
    requires
        forall|i: int|
            0 <= i < out.len() ==> !((#[trigger] out[i]).user_id == user && out[i].date == day),
    ensures
        hits(out, user, day, amount) == 0,
    decreases out.len(),
{
    if out.len() > 0 {
        let rest = out.drop_last();
        assert forall|i: int| 0 <= i < rest.len() implies !((#[trigger] rest[i]).user_id == user
            && rest[i].date == day) by {
            assert(rest[i] == out[i]);
        }
        lemma_no_hit(rest, user, day, amount);
        assert(out.last() == out[out.len() - 1]);
    }
}

/// With one line for the user and day, and no second one, the amount is
/// counted once.
proof fn lemma_one_hit(out: Seq<DayProfitRow>, user: Seq<char>, day: Seq<char>, amount: int, k: int)
    requires
        distinct_days(out),
        0 <= k < out.len(),
        out[k].user_id == user,
        out[k].date == day,
    ensures
        hits(out, user, day, amount) == amount,
    decreases out.len(),
{
    let rest = out.drop_last();
    let n = out.len() - 1;
    assert(out.last() == out[n]);
    if k == n {
        assert forall|i: int| 0 <= i < rest.len() implies !((#[trigger] rest[i]).user_id == user
            && rest[i].date == day) by {
            assert(rest[i] == out[i]);
            assert(!(out[i].user_id == out[n].user_id && out[i].date == out[n].date));
        }
        lemma_no_hit(rest, user, day, amount);
    } else {
        assert(!(out[k].user_id == out[n].user_id && out[k].date == out[n].date));
        assert forall|i: int, j: int| 0 <= i < j < rest.len() implies !((#[trigger] rest[i]).user_id
            == (#[trigger] rest[j]).user_id && rest[i].date == rest[j].date) by {
            assert(rest[i] == out[i]);
            assert(rest[j] == out[j]);
        }
        assert(rest[k] == out[k]);
        lemma_one_hit(rest, user, day, amount, k);
    }
}

/// Lines that are distinct and cover the table sum up, for a user, to all
/// of the user's transactions.
proof fn lemma_days_cover_total(rows: Seq<TransactionRow>, out: Seq<DayProfitRow>, user: Seq<char>)
    requires
        distinct_days(out),
        covers(rows, out),
    ensures
        totals_sum(out, rows, user) == user_total(rows, user),
    decreases rows.len(),
{
    if rows.len() == 0 {
        lemma_empty_table_sums_to_zero(out, rows, user);
    } else {
        let rest = rows.drop_last();
        let last = rows.last();
        assert forall|k: int| 0 <= k < rest.len() implies lists_user_day(
            out,
            (#[trigger] rest[k]).user_id,
            day_of(rest[k].date),
        ) by {
            assert(rest[k] == rows[k]);
        }
        lemma_days_cover_total(rest, out, user);
        lemma_one_more_row(out, rows, user);
        if last.user_id == user {
            assert(last == rows[rows.len() - 1]);
            assert(lists_user_day(out, last.user_id, day_of(last.date)));
            let k = choose|i: int|
                0 <= i < out.len() && (#[trigger] out[i]).user_id == user && out[i].date == day_of(
                    last.date,
                );
            lemma_one_hit(out, user, day_of(last.date), last.amount, k);
        }
    }
}

/// The days partition the profit: the amounts of a user's lines in the
/// daily report add up to the sum of all that user's transactions.
pub proof fn lemma_days_sum_is_user_total(
    rows: Seq<TransactionRow>,
    by_day: Seq<DayProfitRow>,
    user: Seq<char>,
)
    requires
        is_profit_by_day(rows, by_day),
    ensures
        days_sum(by_day, user) == user_total(rows, user),
{
    lemma_days_cover_total(rows, by_day, user);
    lemma_amounts_from_table(by_day, rows, user);
}

/// For every user of the profit report the amounts of the user's lines in
/// the daily report of the same table add up to the user's profit.
pub proof fn lemma_profit_by_day_partitions_profit(
    rows: Seq<TransactionRow>,
    profit: Seq<ProfitRow>,
    by_day: Seq<DayProfitRow>,
    i: int,
)
    requires
        is_profit(rows, profit),
        is_profit_by_day(rows, by_day),
        0 <= i < profit.len(),
    ensures
        days_sum(by_day, profit[i].user_id) == profit[i].amount,
{
    lemma_days_sum_is_user_total(rows, by_day, profit[i].user_id);
}

} // verus!
