//! The ledger: the rules of the game on top of the store.

use vstd::prelude::*;
use crate::db::{
    days_of, history_of, profits_of, Db, GameProfit, GameProfitByDay, GameTransaction,
    StorageError,
};
use crate::model::{
    latest_day_first, latest_first, request_of, start_requests, users_ascending, Request, Step,
};

verus! {

/// The ledger. It keeps no copy of what is stored: every call asks the
/// store.
pub struct Game {
    db: Db,
}

impl Game {
    /// What the engine has done for the ledger's store: each unit of work
    /// with its statements and values, the first one first.
    pub closed spec fn done(&self) -> Seq<Request> {
        self.db.done()
    }

    /// A ledger on the given store.
    pub fn new(database: Db) -> (r: Game)
        ensures
            r.done() == database.done(),
    {
        Game { db: database }
    }

    /// Starts a game: has every active game closed, then the new one
    /// stored, so that it is the only active game. The two steps are two
    /// units of work: where the first fails nothing is done, and where the
    /// second fails the earlier games stay closed and no game is active.
    pub fn start_game(&mut self, description: &str) -> (r: Result<(), StorageError>)
        ensures
            r is Ok ==> exists|id: int|
                final(self).done() == old(self).done() + #[trigger] start_requests(
                    description@,
                    id,
                ),
            r is Err ==> final(self).done() == old(self).done() || final(self).done() == old(
                self,
            ).done().push(request_of(Step::CloseGames)),
    {
        match self.db.close_active_games() {
            Ok(()) => {},
            Err(e) => {
                return Err(e);
            },
        }
        match self.db.new_game(description) {
            Ok(id) => {
                assert(self.done() =~= old(self).done() + start_requests(description@, id as int));
                Ok(())
            },
            Err(e) => Err(e),
        }
    }

    /// Books `amount` for `user_id` in the game `game_id`, dated now. The
    /// game is taken as given: it need not be the active one.
    pub fn save_transaction(&mut self, game_id: i64, user_id: &str, amount: i64) -> (r: Result<
        (),
        StorageError,
    >)
        ensures
            r is Ok ==> final(self).done() == old(self).done().push(
                request_of(
                    Step::AddTransaction {
                        game_id: game_id as int,
                        user_id: user_id@,
                        amount: amount as int,
                    },
                ),
            ),
            r is Err ==> final(self).done() == old(self).done(),
    {
        self.db.save_transaction(game_id, user_id, amount)
    }

    /// All transactions, the latest first. Nothing else is asked of the
    /// engine.
    pub fn get_all_transactions(&mut self) -> (r: Result<Vec<GameTransaction>, StorageError>)
        ensures
            r matches Ok(v) ==> latest_first(history_of(v@)) && final(self).done() == old(
                self,
            ).done().push(request_of(Step::ReadHistory)),
            r is Err ==> final(self).done() == old(self).done() || final(self).done() == old(
                self,
            ).done().push(request_of(Step::ReadHistory)),
    {
        self.db.get_all_transactions()
    }

    /// Each user's total over all games, the users in strictly ascending
    /// order. Nothing else is asked of the engine.
    pub fn get_profit(&mut self) -> (r: Result<Vec<GameProfit>, StorageError>)
        ensures
            r matches Ok(v) ==> users_ascending(profits_of(v@)) && final(self).done() == old(
                self,
            ).done().push(request_of(Step::ReadProfit)),
            r is Err ==> final(self).done() == old(self).done() || final(self).done() == old(
                self,
            ).done().push(request_of(Step::ReadProfit)),
    {
        self.db.get_profit()
    }

    /// Each user's total for each day, the latest day first. Nothing else
    /// is asked of the engine.
    pub fn get_profit_by_day(&mut self) -> (r: Result<Vec<GameProfitByDay>, StorageError>)
        ensures
            r matches Ok(v) ==> latest_day_first(days_of(v@)) && final(self).done() == old(
                self,
            ).done().push(request_of(Step::ReadProfitByDay)),
            r is Err ==> final(self).done() == old(self).done() || final(self).done() == old(
                self,
            ).done().push(request_of(Step::ReadProfitByDay)),
    {
        self.db.get_profit_by_day()
    }
}

} // verus!
