//! Summoner enrichment: the rows that the answered summoner lookups give.
use vstd::prelude::*;
use crate::dodges::DodgeEvent;
use crate::model::{Lookup, Region};
use crate::sequences::views;

verus! {

/// A summoner as the ranking source reports it.
#[derive(Clone, Debug, PartialEq, Eq)]
pub struct Summoner {
    pub puuid: String,
    pub id: Option<String>,
    pub account_id: Option<String>,
    pub profile_icon_id: i32,
    pub summoner_level: i64,
}

/// A summoner as it is stored.
#[derive(Clone, Debug, PartialEq, Eq)]
pub struct SummonerRow {
    pub puuid: String,
    pub summoner_id: Option<String>,
    pub region: Region,
    pub account_id: Option<String>,
    pub profile_icon_id: i64,
    pub summoner_level: i64,
}

/// A summoner row as a mathematical value.
pub struct SummonerRowView {
    pub puuid: Seq<char>,
    pub summoner_id: Option<Seq<char>>,
    pub region: Region,
    pub account_id: Option<Seq<char>>,
    pub profile_icon_id: i64,
    pub summoner_level: i64,
}

impl View for SummonerRow {
    type V = SummonerRowView;

    open spec fn view(&self) -> SummonerRowView {
        SummonerRowView {
            puuid: self.puuid@,
            summoner_id: text_view(self.summoner_id),
            region: self.region,
            account_id: text_view(self.account_id),
            profile_icon_id: self.profile_icon_id,
            summoner_level: self.summoner_level,
        }
    }
}

/// The text of an optional string.
pub open spec fn text_view(text: Option<String>) -> Option<Seq<char>> {
    match text {
        Some(text) => Some(text@),
        None => None,
    }
}

/// Copies an optional string.
fn copy_text(text: &Option<String>) -> (copy: Option<String>)
    ensures
        text_view(copy) == text_view(*text),
{
    match text {
        Some(text) => Some(text.clone()),
        None => None,
    }
}

/// The players whose summoners are looked up: those of the dodges, in their order.
pub fn dodge_summoner_ids(dodges: &Vec<DodgeEvent>) -> (ids: Vec<String>)
    ensures
        views(ids@) == dodges@.map_values(|dodge: DodgeEvent| dodge.summoner_id@),
{
    let mut ids: Vec<String> = Vec::new();
    let mut i: usize = 0;
    while i < dodges.len()
        invariant
            i <= dodges.len(),
            ids@.len() == i,
            forall|j: int| 0 <= j < i ==> (#[trigger] ids@[j])@ == dodges@[j].summoner_id@,
        decreases dodges.len() - i,
    {
        ids.push(dodges[i].summoner_id.clone());
        i = i + 1;
    }
    assert(views(ids@) =~= dodges@.map_values(|dodge: DodgeEvent| dodge.summoner_id@));
    ids
}

/// The row of one lookup for `region`: there is one where the lookup found a
/// summoner.
pub open spec fn summoner_row_of(result: Lookup<Option<Summoner>>, region: Region) -> Option<
    SummonerRowView,
> {
    match result {
        Lookup::Found(Some(summoner)) => Some(
            SummonerRowView {
                puuid: summoner.puuid@,
                summoner_id: text_view(summoner.id),
                region,
                account_id: text_view(summoner.account_id),
                profile_icon_id: summoner.profile_icon_id as i64,
                summoner_level: summoner.summoner_level,
            },
        ),
        _ => None,
    }
}

/// The rows of all lookups, in their order.
pub open spec fn summoner_rows_of(results: Seq<Lookup<Option<Summoner>>>, region: Region) -> Seq<
    SummonerRowView,
> {
    results.filter_map(|result: Lookup<Option<Summoner>>| summoner_row_of(result, region))
}

/// Gathers the summoner rows of a cycle. A lookup that found no summoner,
/// failed or timed out gives no row.
pub fn summoner_rows(results: &Vec<Lookup<Option<Summoner>>>, region: Region) -> (rows: Vec<
    SummonerRow,
>)
    ensures
        views(rows@) == summoner_rows_of(results@, region),
{
    let mut rows: Vec<SummonerRow> = Vec::new();
    let mut i: usize = 0;
    assert(results@.take(0) =~= Seq::empty());
    assert(views(rows@) =~= Seq::empty());
    while i < results.len()
        invariant
            i <= results.len(),
            views(rows@) == summoner_rows_of(results@.take(i as int), region),
        decreases results.len() - i,
    {
        let ghost before = rows@;
        proof {
            results@.lemma_filter_map_take_succ(
                |result: Lookup<Option<Summoner>>| summoner_row_of(result, region),
                i as int,
            );
        }
        match &results[i] {
            Lookup::Found(Some(summoner)) => {
                let row = SummonerRow {
                    puuid: summoner.puuid.clone(),
                    summoner_id: copy_text(&summoner.id),
                    region,
                    account_id: copy_text(&summoner.account_id),
                    profile_icon_id: summoner.profile_icon_id as i64,
                    summoner_level: summoner.summoner_level,
                };
                rows.push(row);
                assert(views(rows@) =~= views(before) + seq![row@]);
            },
            _ => {},
        }
        i = i + 1;
    }
    assert(results@.take(results.len() as int) =~= results@);
    rows
}

/// The accounts that are looked up next: those of the stored summoners, in
/// their order.
pub fn summoner_puuids(rows: &Vec<SummonerRow>) -> (puuids: Vec<String>)
    ensures
        views(puuids@) == rows@.map_values(|row: SummonerRow| row.puuid@),
{
    let mut puuids: Vec<String> = Vec::new();
    let mut i: usize = 0;
    while i < rows.len()
        invariant
            i <= rows.len(),
            puuids@.len() == i,
            forall|j: int| 0 <= j < i ==> (#[trigger] puuids@[j])@ == rows@[j].puuid@,
        decreases rows.len() - i,
    {
        puuids.push(rows[i].puuid.clone());
        i = i + 1;
    }
    assert(views(puuids@) =~= rows@.map_values(|row: SummonerRow| row.puuid@));
    puuids
}

} // verus!
