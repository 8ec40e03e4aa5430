use game_ledger::db::{
    ordered_history, ordered_profit, ordered_profit_by_day, Db, GameProfit, GameProfitByDay,
    GameTransaction, StorageError,
};
use game_ledger::order::{
    is_latest_day_first, is_latest_first, is_users_ascending, text_before, text_not_after,
};

fn transaction(date: &str) -> GameTransaction {
    GameTransaction { game_id: 1, user_id: "u".to_string(), amount: 1, date: date.to_string() }
}

fn profit(user_id: &str) -> GameProfit {
    GameProfit { user_id: user_id.to_string(), amount: 0 }
}

fn day_line(user_id: &str, date: &str) -> GameProfitByDay {
    GameProfitByDay { user_id: user_id.to_string(), date: date.to_string(), amount: 0 }
}

fn out_of_order() -> StorageError {
    StorageError {
        message: "the database orders its texts in another way than the store".to_string(),
    }
}

#[test]
fn texts_compare_by_character_and_a_beginning_comes_first() {
    assert!(text_before("", "a"));
    assert!(!text_before("", ""));
    assert!(!text_before("a", ""));
    assert!(text_before("al", "alice"));
    assert!(!text_before("alice", "al"));
    assert!(text_before("Bob", "amy"));
    assert!(!text_before("amy", "Bob"));
    assert!(!text_before("amy", "amy"));
    assert!(text_before("a", "\u{100}"));
    assert!(text_before("\u{ff5e}", "\u{1f600}"));
    assert!(text_before("2024-01-02 23:59:59", "2024-01-03 00:00:00"));
}

#[test]
fn not_after_is_before_or_equal() {
    assert!(text_not_after("amy", "amy"));
    assert!(text_not_after("Bob", "amy"));
    assert!(!text_not_after("amy", "Bob"));
    assert!(text_not_after("", ""));
}

#[test]
fn latest_first_is_decided_over_all_rows() {
    assert!(is_latest_first(&vec![]));
    assert!(is_latest_first(&vec![transaction("x")]));
    assert!(is_latest_first(&vec![transaction("c"), transaction("b"), transaction("b"), transaction("a")]));
    assert!(!is_latest_first(&vec![transaction("c"), transaction("a"), transaction("b")]));
    assert!(!is_latest_first(&vec![transaction("a"), transaction("b")]));
}

#[test]
fn ascending_users_allow_no_user_twice() {
    assert!(is_users_ascending(&vec![]));
    assert!(is_users_ascending(&vec![profit("Zoe"), profit("a"), profit("al")]));
    assert!(!is_users_ascending(&vec![profit("a"), profit("a")]));
    assert!(!is_users_ascending(&vec![profit("amy"), profit("Bob")]));
}

#[test]
fn latest_day_first_allows_a_day_twice() {
    assert!(is_latest_day_first(&vec![
        day_line("a", "2024-03-01"),
        day_line("b", "2024-03-01"),
        day_line("a", "2024-02-29"),
    ]));
    assert!(!is_latest_day_first(&vec![day_line("a", "2024-02-29"), day_line("a", "2024-03-01")]));
}

#[test]
fn ordered_rows_are_handed_on_unchanged() {
    let rows = vec![transaction("b"), transaction("a")];
    assert_eq!(ordered_history(rows.clone()), Ok(rows));
    let report = vec![profit("a"), profit("b")];
    assert_eq!(ordered_profit(report.clone()), Ok(report));
    let days = vec![day_line("a", "2024-03-01"), day_line("a", "2024-02-29")];
    assert_eq!(ordered_profit_by_day(days.clone()), Ok(days));
}

#[test]
fn rows_out_of_order_are_refused() {
    assert_eq!(ordered_history(vec![transaction("a"), transaction("b")]), Err(out_of_order()));
    assert_eq!(ordered_profit(vec![profit("b"), profit("a")]), Err(out_of_order()));
    assert_eq!(
        ordered_profit_by_day(vec![day_line("a", "2024-02-29"), day_line("a", "2024-03-01")]),
        Err(out_of_order())
    );
}

#[test]
fn a_database_with_another_order_of_texts_is_refused() {
    let uri = "file:other_collation?mode=memory&cache=shared";
    let keep = rusqlite::Connection::open(uri).expect("open");
    keep.execute(
        "CREATE TABLE game_transactions (game_id INTEGER NOT NULL, user_id TEXT NOT NULL COLLATE NOCASE, amount INTEGER NOT NULL, date TEXT NOT NULL COLLATE NOCASE)",
        (),
    )
    .expect("create");
    let mut db = Db::new(uri).expect("open");
    for (user, date) in [("amy", "a"), ("Bob", "B")] {
        keep.execute(
            "INSERT INTO game_transactions (game_id, user_id, amount, date) VALUES (1, ?1, 1, ?2)",
            (user, date),
        )
        .expect("insert");
    }
    assert_eq!(db.get_all_transactions(), Err(out_of_order()));
    assert_eq!(db.get_profit(), Err(out_of_order()));
}
