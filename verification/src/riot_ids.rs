//! Account enrichment: the rows that the answered account lookups give.
use vstd::prelude::*;
use crate::model::Lookup;
use crate::sequences::views;

verus! {

/// An account as the identity service reports it.
#[derive(Clone, Debug, PartialEq, Eq)]
pub struct Account {
    pub puuid: String,
    pub game_name: Option<String>,
    pub tag_line: Option<String>,
}

/// The Riot id of an account, as it is stored.
#[derive(Clone, Debug, PartialEq, Eq)]
pub struct RiotIdRow {
    pub puuid: String,
    pub game_name: String,
    pub tag_line: String,
}

/// A Riot id row as a mathematical value.
pub struct RiotIdRowView {
    pub puuid: Seq<char>,
    pub game_name: Seq<char>,
    pub tag_line: Seq<char>,
}

impl View for RiotIdRow {
    type V = RiotIdRowView;

    open spec fn view(&self) -> RiotIdRowView {
        RiotIdRowView { puuid: self.puuid@, game_name: self.game_name@, tag_line: self.tag_line@ }
    }
}

/// The row of one lookup: there is one where the lookup found an account that
/// has both a game name and a tag line.
pub open spec fn riot_id_row_of(result: Lookup<Account>) -> Option<RiotIdRowView> {
    match result {
        Lookup::Found(account) => if account.game_name is Some && account.tag_line is Some {
            Some(
                RiotIdRowView {
                    puuid: account.puuid@,
                    game_name: account.game_name->0@,
                    tag_line: account.tag_line->0@,
                },
            )
        } else {
            None
        },
        _ => None,
    }
}

/// The rows of all lookups, in their order.
pub open spec fn riot_id_rows_of(results: Seq<Lookup<Account>>) -> Seq<RiotIdRowView> {
    results.filter_map(|result: Lookup<Account>| riot_id_row_of(result))
}

/// Gathers the Riot id rows of a cycle. A lookup that failed or timed out, and
/// an account without a game name or without a tag line, give no row.
pub fn riot_id_rows(results: &Vec<Lookup<Account>>) -> (rows: Vec<RiotIdRow>)
    ensures
        views(rows@) == riot_id_rows_of(results@),
{
    let mut rows: Vec<RiotIdRow> = Vec::new();
    let mut i: usize = 0;
    assert(results@.take(0) =~= Seq::empty());
    assert(views(rows@) =~= Seq::empty());
    while i < results.len()
        invariant
            i <= results.len(),
            views(rows@) == riot_id_rows_of(results@.take(i as int)),
        decreases results.len() - i,
    {
        let ghost before = rows@;
        proof {
            results@.lemma_filter_map_take_succ(
                |result: Lookup<Account>| riot_id_row_of(result),
                i as int,
            );
        }
        match &results[i] {
            Lookup::Found(account) => {
                match (&account.game_name, &account.tag_line) {
                    (Some(game_name), Some(tag_line)) => {
                        let row = RiotIdRow {
                            puuid: account.puuid.clone(),
                            game_name: game_name.clone(),
                            tag_line: tag_line.clone(),
                        };
                        rows.push(row);
                        assert(views(rows@) =~= views(before) + seq![row@]);
                    },
                    _ => {},
                }
            },
            _ => {},
        }
        i = i + 1;
    }
    assert(results@.take(results.len() as int) =~= results@);
    rows
}

} // verus!
