use game_ledger::db::{Db, GameProfit, GameProfitByDay, GameTransaction, StorageError};
use game_ledger::game::Game;

fn memory_db() -> Db {
    Db::new(":memory:").expect("an in-memory database opens")
}

fn shared_uri(name: &str) -> String {
    format!("file:{}?mode=memory&cache=shared", name)
}

fn game_rows(uri: &str) -> Vec<(i64, String, Option<String>, Option<String>)> {
    let conn = rusqlite::Connection::open(uri).expect("second connection");
    let mut stmt = conn
        .prepare("SELECT id, start_date, end_date, description FROM game_info ORDER BY id")
        .expect("prepare");
    let rows = stmt
        .query_map([], |row| Ok((row.get(0)?, row.get(1)?, row.get(2)?, row.get(3)?)))
        .expect("query");
    rows.map(|r| r.expect("row")).collect()
}

fn is_timestamp(s: &str) -> bool {
    let b = s.as_bytes();
    b.len() == 19
        && b.iter().enumerate().all(|(i, c)| match i {
            4 | 7 => *c == b'-',
            10 => *c == b' ',
            13 | 16 => *c == b':',
            _ => c.is_ascii_digit(),
        })
}

#[test]
fn scenario_two_games_three_transactions() {
    let uri = shared_uri("scenario_two_games");
    let mut game = Game::new(Db::new(&uri).expect("open"));
    game.start_game("A").expect("start A");
    game.save_transaction(1, "alice", 500).expect("save");
    game.save_transaction(1, "bob", -200).expect("save");
    game.start_game("B").expect("start B");
    game.save_transaction(2, "alice", 100).expect("save");

    let profit = game.get_profit().expect("profit");
    assert_eq!(
        profit,
        vec![
            GameProfit { user_id: "alice".to_string(), amount: 600 },
            GameProfit { user_id: "bob".to_string(), amount: -200 },
        ]
    );

    let all = game.get_all_transactions().expect("transactions");
    assert_eq!(all.len(), 3);
    for w in all.windows(2) {
        assert!(w[0].date >= w[1].date);
    }

    let games = game_rows(&uri);
    assert_eq!(games.len(), 2);
    assert_eq!(games[0].0, 1);
    assert_eq!(games[1].0, 2);
    assert_eq!(games[0].3, Some("A".to_string()));
    assert_eq!(games[1].3, Some("B".to_string()));
    let end_of_first = games[0].2.clone().expect("the first game is closed");
    assert!(end_of_first <= games[1].1);
    assert_eq!(games[1].2, None);
}

#[test]
fn start_game_leaves_exactly_one_active_game() {
    let uri = shared_uri("one_active_game");
    let mut game = Game::new(Db::new(&uri).expect("open"));
    for (n, name) in ["first", "second", "third", "fourth"].iter().enumerate() {
        game.start_game(name).expect("start");
        let games = game_rows(&uri);
        assert_eq!(games.len(), n + 1);
        let active: Vec<_> = games.iter().filter(|g| g.2.is_none()).collect();
        assert_eq!(active.len(), 1);
        assert_eq!(active[0].3, Some(name.to_string()));
        assert!(is_timestamp(&active[0].1));
        for g in games.iter().filter(|g| g.2.is_some()) {
            let end = g.2.clone().expect("closed");
            assert!(is_timestamp(&end));
            assert!(end <= active[0].1);
        }
    }
}

#[test]
fn close_active_games_with_none_active_is_no_failure() {
    let uri = shared_uri("close_nothing");
    let mut db = Db::new(&uri).expect("open");
    assert_eq!(db.close_active_games(), Ok(()));
    assert_eq!(db.new_game("only"), Ok(1));
    assert_eq!(db.close_active_games(), Ok(()));
    let closed_at = game_rows(&uri)[0].2.clone();
    assert!(closed_at.is_some());
    assert_eq!(db.close_active_games(), Ok(()));
    assert_eq!(game_rows(&uri)[0].2, closed_at);
}

#[test]
fn new_game_identifiers_increase() {
    let mut db = memory_db();
    let mut last = 0;
    for name in ["a", "b", "c", "d", "e"] {
        let id = db.new_game(name).expect("new game");
        assert!(id > last);
        last = id;
    }
    assert_eq!(last, 5);
}

#[test]
fn new_game_does_not_close_the_others() {
    let uri = shared_uri("new_game_keeps_active");
    let mut db = Db::new(&uri).expect("open");
    assert_eq!(db.new_game("x"), Ok(1));
    assert_eq!(db.new_game("y"), Ok(2));
    let games = game_rows(&uri);
    assert_eq!(games.len(), 2);
    assert!(games.iter().all(|g| g.2.is_none()));
}

#[test]
fn initialize_twice_is_harmless() {
    let mut db = memory_db();
    assert_eq!(db.initialize(), Ok(()));
    assert_eq!(db.initialize(), Ok(()));
    db.save_transaction(1, "carol", 7).expect("save");
    assert_eq!(db.initialize(), Ok(()));
    let all = db.get_all_transactions().expect("transactions");
    assert_eq!(all.len(), 1);
    assert_eq!(all[0].game_id, 1);
    assert_eq!(all[0].user_id, "carol");
    assert_eq!(all[0].amount, 7);
    assert!(is_timestamp(&all[0].date));
}

#[test]
fn empty_store_gives_empty_reports() {
    let mut game = Game::new(memory_db());
    assert_eq!(game.get_all_transactions(), Ok(Vec::<GameTransaction>::new()));
    assert_eq!(game.get_profit(), Ok(Vec::<GameProfit>::new()));
    assert_eq!(game.get_profit_by_day(), Ok(Vec::<GameProfitByDay>::new()));
}

#[test]
fn profit_adds_up_over_games_and_is_sorted_by_user() {
    let mut game = Game::new(memory_db());
    game.start_game("one").expect("start");
    game.save_transaction(1, "zed", 10).expect("save");
    game.save_transaction(1, "amy", -3).expect("save");
    game.start_game("two").expect("start");
    game.save_transaction(2, "zed", -25).expect("save");
    game.save_transaction(2, "Bob", 4).expect("save");
    game.save_transaction(1, "amy", 3).expect("save");
    let profit = game.get_profit().expect("profit");
    assert_eq!(
        profit,
        vec![
            GameProfit { user_id: "Bob".to_string(), amount: 4 },
            GameProfit { user_id: "amy".to_string(), amount: 0 },
            GameProfit { user_id: "zed".to_string(), amount: -15 },
        ]
    );
}

#[test]
fn profit_by_day_partitions_profit() {
    let mut game = Game::new(memory_db());
    game.start_game("g").expect("start");
    game.save_transaction(1, "alice", 500).expect("save");
    game.save_transaction(1, "bob", -200).expect("save");
    game.save_transaction(1, "alice", 100).expect("save");
    let all = game.get_all_transactions().expect("transactions");
    let profit = game.get_profit().expect("profit");
    let by_day = game.get_profit_by_day().expect("by day");
    for p in &profit {
        let sum: i64 = by_day.iter().filter(|d| d.user_id == p.user_id).map(|d| d.amount).sum();
        assert_eq!(sum, p.amount);
    }
    for d in &by_day {
        assert_eq!(d.date.len(), 10);
        assert!(all.iter().any(|t| t.user_id == d.user_id && t.date[..10] == d.date));
    }
    for w in by_day.windows(2) {
        assert!(w[0].date >= w[1].date);
        assert!(!(w[0].date == w[1].date && w[0].user_id == w[1].user_id));
    }
    let alice: Vec<_> = by_day.iter().filter(|d| d.user_id == "alice").collect();
    let total: i64 = alice.iter().map(|d| d.amount).sum();
    assert_eq!(total, 600);
}

#[test]
fn transaction_may_name_a_closed_game() {
    let mut game = Game::new(memory_db());
    game.start_game("old").expect("start");
    game.start_game("new").expect("start");
    assert_eq!(game.save_transaction(1, "dave", 42), Ok(()));
    let all = game.get_all_transactions().expect("transactions");
    assert_eq!(all.len(), 1);
    assert_eq!(all[0].game_id, 1);
    assert_eq!(all[0].amount, 42);
}

#[test]
fn profit_that_leaves_64_bits_is_a_storage_error() {
    let mut db = memory_db();
    db.save_transaction(1, "rich", i64::MAX).expect("save");
    db.save_transaction(1, "rich", 1).expect("save");
    let r = db.get_profit();
    assert!(r.is_err());
    let e: StorageError = r.expect_err("overflow");
    assert!(!e.message.is_empty());
    assert_eq!(db.get_all_transactions().expect("still readable").len(), 2);
}

#[test]
fn unreachable_database_is_a_storage_error() {
    let r = Db::new("/no/such/directory/anywhere/ledger.sqlite");
    assert!(r.is_err());
}

fn insert_dated(uri: &str, game_id: i64, user_id: &str, amount: i64, date: &str) {
    let conn = rusqlite::Connection::open(uri).expect("second connection");
    conn.execute(
        "INSERT INTO game_transactions (game_id, user_id, amount, date) VALUES (?1, ?2, ?3, ?4)",
        (game_id, user_id, amount, date),
    )
    .expect("insert");
}

fn day(user_id: &str, date: &str, amount: i64) -> GameProfitByDay {
    GameProfitByDay { user_id: user_id.to_string(), date: date.to_string(), amount }
}

#[test]
fn day_is_the_date_cut_off_not_rounded() {
    let uri = shared_uri("day_cut_off");
    let mut db = Db::new(&uri).expect("open");
    insert_dated(&uri, 1, "alice", 5, "2024-01-02 23:59:59");
    insert_dated(&uri, 1, "alice", 7, "2024-01-02 00:00:00");
    insert_dated(&uri, 1, "alice", -1, "2024-01-03 00:00:00");
    let by_day = db.get_profit_by_day().expect("by day");
    assert_eq!(by_day, vec![day("alice", "2024-01-03", -1), day("alice", "2024-01-02", 12)]);
}

#[test]
fn profit_by_day_over_several_days_and_users() {
    let uri = shared_uri("several_days");
    let mut db = Db::new(&uri).expect("open");
    insert_dated(&uri, 1, "alice", 500, "2023-12-31 22:10:00");
    insert_dated(&uri, 1, "bob", -200, "2023-12-31 22:11:00");
    insert_dated(&uri, 2, "alice", 100, "2024-02-29 08:00:00");
    insert_dated(&uri, 2, "alice", -50, "2024-02-29 09:30:15");
    insert_dated(&uri, 3, "bob", 30, "2024-03-01 00:00:01");
    let by_day = db.get_profit_by_day().expect("by day");
    assert_eq!(by_day.len(), 4);
    assert_eq!(by_day[0], day("bob", "2024-03-01", 30));
    assert_eq!(by_day[1], day("alice", "2024-02-29", 50));
    assert!(by_day.contains(&day("alice", "2023-12-31", 500)));
    assert!(by_day.contains(&day("bob", "2023-12-31", -200)));
    for w in by_day.windows(2) {
        assert!(w[0].date >= w[1].date);
    }
    let profit = db.get_profit().expect("profit");
    assert_eq!(
        profit,
        vec![
            GameProfit { user_id: "alice".to_string(), amount: 550 },
            GameProfit { user_id: "bob".to_string(), amount: -170 },
        ]
    );
    for p in &profit {
        let sum: i64 = by_day.iter().filter(|d| d.user_id == p.user_id).map(|d| d.amount).sum();
        assert_eq!(sum, p.amount);
    }
}

#[test]
fn transactions_come_latest_first() {
    let uri = shared_uri("latest_first");
    let mut db = Db::new(&uri).expect("open");
    insert_dated(&uri, 1, "alice", 1, "2024-05-01 10:00:00");
    insert_dated(&uri, 1, "bob", 2, "2024-05-03 10:00:00");
    insert_dated(&uri, 2, "carol", 3, "2024-05-02 10:00:00");
    let all = db.get_all_transactions().expect("transactions");
    assert_eq!(
        all,
        vec![
            GameTransaction {
                game_id: 1,
                user_id: "bob".to_string(),
                amount: 2,
                date: "2024-05-03 10:00:00".to_string(),
            },
            GameTransaction {
                game_id: 2,
                user_id: "carol".to_string(),
                amount: 3,
                date: "2024-05-02 10:00:00".to_string(),
            },
            GameTransaction {
                game_id: 1,
                user_id: "alice".to_string(),
                amount: 1,
                date: "2024-05-01 10:00:00".to_string(),
            },
        ]
    );
}

#[test]
fn users_are_ordered_as_texts_compare() {
    let mut db = memory_db();
    for user in ["al", "alice", "Zoe", "", "bob", "a"] {
        db.save_transaction(1, user, 1).expect("save");
    }
    let users: Vec<String> = db.get_profit().expect("profit").into_iter().map(|p| p.user_id).collect();
    assert_eq!(users, vec!["", "Zoe", "a", "al", "alice", "bob"]);
}

#[test]
fn saved_amount_adds_to_the_user_total() {
    let mut db = memory_db();
    db.save_transaction(1, "alice", 10).expect("save");
    db.save_transaction(2, "bob", 5).expect("save");
    let before = db.get_profit().expect("profit");
    db.save_transaction(3, "alice", -4).expect("save");
    let after = db.get_profit().expect("profit");
    assert_eq!(before[0].amount, 10);
    assert_eq!(after[0].amount, 6);
    assert_eq!(before[1], after[1]);
}

fn insert_game_with_id(uri: &str, id: i64, description: &str) {
    let conn = rusqlite::Connection::open(uri).expect("second connection");
    conn.execute(
        "INSERT INTO game_info (id, start_date, end_date, description) VALUES (?1, datetime(), NULL, ?2)",
        (id, description),
    )
    .expect("insert");
}

#[test]
fn games_closed_together_share_their_end_date() {
    let uri = shared_uri("closed_together");
    let mut db = Db::new(&uri).expect("open");
    assert_eq!(db.new_game("x"), Ok(1));
    assert_eq!(db.new_game("y"), Ok(2));
    assert_eq!(db.new_game("z"), Ok(3));
    assert_eq!(db.close_active_games(), Ok(()));
    let games = game_rows(&uri);
    assert_eq!(games.len(), 3);
    let end = games[0].2.clone().expect("closed");
    assert!(is_timestamp(&end));
    assert_eq!(games[1].2, Some(end.clone()));
    assert_eq!(games[2].2, Some(end));
    assert_eq!(games[0].3, Some("x".to_string()));
    assert_eq!(games[2].3, Some("z".to_string()));
}

#[test]
fn new_game_follows_the_largest_identifier() {
    let uri = shared_uri("largest_identifier");
    let mut db = Db::new(&uri).expect("open");
    assert_eq!(db.new_game("first"), Ok(1));
    insert_game_with_id(&uri, 100, "far ahead");
    assert_eq!(db.new_game("next"), Ok(101));
    assert_eq!(db.new_game("after"), Ok(102));
}

#[test]
fn new_game_after_the_largest_identifier_there_is() {
    let uri = shared_uri("last_identifier");
    let mut db = Db::new(&uri).expect("open");
    insert_game_with_id(&uri, 7, "seven");
    insert_game_with_id(&uri, i64::MAX, "the last");
    let id = db.new_game("one more").expect("the engine finds a free identifier");
    assert!(id != 7 && id != i64::MAX);
    let games = game_rows(&uri);
    assert_eq!(games.len(), 3);
    assert!(games.iter().any(|g| g.0 == id && g.3 == Some("one more".to_string())));
}

#[test]
fn history_has_every_transaction_once() {
    let mut db = memory_db();
    db.save_transaction(4, "amy", 1).expect("save");
    db.save_transaction(5, "amy", 1).expect("save");
    db.save_transaction(4, "amy", 1).expect("save");
    let all = db.get_all_transactions().expect("transactions");
    assert_eq!(all.len(), 3);
    assert_eq!(all.iter().filter(|t| t.game_id == 4).count(), 2);
    assert_eq!(all.iter().filter(|t| t.game_id == 5).count(), 1);
    assert!(all.iter().all(|t| t.user_id == "amy" && t.amount == 1 && is_timestamp(&t.date)));
}

#[test]
fn daily_profit_that_leaves_64_bits_is_a_storage_error() {
    let uri = shared_uri("daily_overflow");
    let mut db = Db::new(&uri).expect("open");
    insert_dated(&uri, 1, "rich", i64::MAX, "2024-06-01 10:00:00");
    insert_dated(&uri, 1, "rich", -1, "2024-06-02 10:00:00");
    assert_eq!(
        db.get_profit_by_day(),
        Ok(vec![day("rich", "2024-06-02", -1), day("rich", "2024-06-01", i64::MAX)])
    );
    assert_eq!(
        db.get_profit(),
        Ok(vec![GameProfit { user_id: "rich".to_string(), amount: i64::MAX - 1 }])
    );
    insert_dated(&uri, 1, "rich", 1, "2024-06-01 23:00:00");
    assert!(db.get_profit_by_day().is_err());
    assert_eq!(
        db.get_profit(),
        Ok(vec![GameProfit { user_id: "rich".to_string(), amount: i64::MAX }])
    );
}

#[test]
fn loss_that_leaves_64_bits_is_a_storage_error() {
    let mut db = memory_db();
    db.save_transaction(1, "poor", i64::MIN).expect("save");
    db.save_transaction(1, "fine", 3).expect("save");
    assert_eq!(db.get_profit().expect("profit").len(), 2);
    db.save_transaction(2, "poor", -1).expect("save");
    assert!(db.get_profit().is_err());
}

#[test]
fn two_stores_on_one_database_see_each_other() {
    let uri = shared_uri("two_stores");
    let mut first = Db::new(&uri).expect("open");
    let mut second = Db::new(&uri).expect("open again");
    assert_eq!(second.get_all_transactions().expect("transactions").len(), 0);
    first.save_transaction(1, "amy", 9).expect("save");
    let seen = second.get_all_transactions().expect("transactions");
    assert_eq!(seen.len(), 1);
    assert_eq!(seen[0].user_id, "amy");
    assert_eq!(first.new_game("one"), Ok(1));
    assert_eq!(second.new_game("two"), Ok(2));
    assert_eq!(second.get_profit(), Ok(vec![GameProfit { user_id: "amy".to_string(), amount: 9 }]));
}
