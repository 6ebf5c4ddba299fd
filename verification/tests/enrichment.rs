use dodgetracker::dodges::DodgeEvent;
use dodgetracker::lolpros::{
    lolpros_rows, lolpros_search_url, parse_position, parse_profile, LolprosProfile, Position,
    ProfileError, ProfileFields, RiotIdSlugRow,
};
use dodgetracker::model::{same_text, Lookup, RankTier, Region};
use dodgetracker::riot_ids::{riot_id_rows, Account, RiotIdRow};
use dodgetracker::summoners::{
    dodge_summoner_ids, summoner_puuids, summoner_rows, Summoner, SummonerRow,
};

fn fields(slug: Option<&str>, name: Option<&str>, country: Option<&str>, position: Option<&str>) -> ProfileFields {
    ProfileFields {
        slug: slug.map(|s| s.to_string()),
        name: name.map(|s| s.to_string()),
        country: country.map(|s| s.to_string()),
        position: position.map(|s| s.to_string()),
    }
}

fn profile(slug: &str, position: Position) -> LolprosProfile {
    LolprosProfile {
        slug: slug.to_string(),
        name: format!("{} name", slug),
        country: "FR".to_string(),
        position,
    }
}

fn account(puuid: &str) -> RiotIdRow {
    RiotIdRow {
        puuid: puuid.to_string(),
        game_name: format!("{} game", puuid),
        tag_line: "EUW".to_string(),
    }
}

#[test]
fn search_url_percent_encodes_the_riot_id() {
    assert_eq!(
        lolpros_search_url("Faker", "KR1"),
        "https://api.lolpros.gg/es/search?query=Faker%23KR1"
    );
}

#[test]
fn search_url_keeps_unreserved_characters() {
    assert_eq!(
        lolpros_search_url("aZ09-_.~", "x"),
        "https://api.lolpros.gg/es/search?query=aZ09-_.~%23x"
    );
}

#[test]
fn search_url_encodes_spaces_and_utf8_bytes_in_upper_case_hex() {
    assert_eq!(
        lolpros_search_url("a b", "é/+"),
        "https://api.lolpros.gg/es/search?query=a%20b%23%C3%A9%2F%2B"
    );
}

#[test]
fn search_url_of_empty_names() {
    assert_eq!(
        lolpros_search_url("", ""),
        "https://api.lolpros.gg/es/search?query=%23"
    );
}

#[test]
fn position_codes() {
    assert_eq!(parse_position("10_top"), Some(Position::Top));
    assert_eq!(parse_position("20_jungle"), Some(Position::Jungle));
    assert_eq!(parse_position("30_mid"), Some(Position::Mid));
    assert_eq!(parse_position("40_adc"), Some(Position::Bot));
    assert_eq!(parse_position("50_support"), Some(Position::Support));
    assert_eq!(parse_position("top"), None);
    assert_eq!(parse_position("10_TOP"), None);
    assert_eq!(parse_position(""), None);
    assert_eq!(parse_position("10_top "), None);
}

#[test]
fn texts_are_compared_whole() {
    assert!(same_text("abc", "abc"));
    assert!(same_text("", ""));
    assert!(!same_text("abc", "abd"));
    assert!(!same_text("abc", "ab"));
    assert!(!same_text("é", "e"));
}

#[test]
fn no_hit_is_no_profile() {
    assert_eq!(parse_profile(None), Ok(None));
}

#[test]
fn hit_with_all_fields_is_a_profile() {
    assert_eq!(
        parse_profile(Some(fields(
            Some("some-player"),
            Some("Some Player"),
            Some("DK"),
            Some("30_mid")
        ))),
        Ok(Some(LolprosProfile {
            slug: "some-player".to_string(),
            name: "Some Player".to_string(),
            country: "DK".to_string(),
            position: Position::Mid,
        }))
    );
}

#[test]
fn first_missing_field_is_reported() {
    assert_eq!(
        parse_profile(Some(fields(None, None, None, None))),
        Err(ProfileError::MissingSlug)
    );
    assert_eq!(
        parse_profile(Some(fields(Some("s"), None, None, None))),
        Err(ProfileError::MissingName)
    );
    assert_eq!(
        parse_profile(Some(fields(Some("s"), Some("n"), None, Some("bad")))),
        Err(ProfileError::MissingCountry)
    );
    assert_eq!(
        parse_profile(Some(fields(Some("s"), Some("n"), Some("c"), None))),
        Err(ProfileError::MissingPosition)
    );
    assert_eq!(
        parse_profile(Some(fields(Some("s"), Some("n"), Some("c"), Some("60_coach")))),
        Err(ProfileError::UnknownPosition)
    );
    assert_eq!(
        parse_profile(Some(fields(None, Some("n"), Some("c"), Some("60_coach")))),
        Err(ProfileError::MissingSlug)
    );
}

#[test]
fn profile_errors_in_words() {
    assert_eq!(ProfileError::MissingSlug.message(), "Missing slug field");
    assert_eq!(ProfileError::MissingName.message(), "Missing name field");
    assert_eq!(ProfileError::MissingCountry.message(), "Missing country field");
    assert_eq!(ProfileError::MissingPosition.message(), "Missing position field");
    assert_eq!(
        ProfileError::UnknownPosition.message(),
        "Unknown position for lolpros player"
    );
}

#[test]
fn lolpros_rows_keep_the_found_profiles() {
    let accounts = vec![account("puuid-1"), account("puuid-2"), account("puuid-3"), account("puuid-4"), account("puuid-5")];
    let results = vec![
        Lookup::Found(Some(profile("one", Position::Top))),
        Lookup::Found(None),
        Lookup::Failed,
        Lookup::TimedOut,
        Lookup::Found(Some(profile("five", Position::Support))),
    ];
    let rows = lolpros_rows(&accounts, &results);
    assert_eq!(
        rows.riot_ids,
        vec![
            RiotIdSlugRow {
                puuid: "puuid-1".to_string(),
                lolpros_slug: "one".to_string(),
            },
            RiotIdSlugRow {
                puuid: "puuid-5".to_string(),
                lolpros_slug: "five".to_string(),
            },
        ]
    );
    assert_eq!(
        rows.profiles,
        vec![profile("one", Position::Top), profile("five", Position::Support)]
    );
}

#[test]
fn lolpros_rows_go_as_far_as_accounts_and_results_both_go() {
    let accounts = vec![account("puuid-1")];
    let results = vec![
        Lookup::Found(Some(profile("one", Position::Top))),
        Lookup::Found(Some(profile("two", Position::Mid))),
    ];
    assert_eq!(lolpros_rows(&accounts, &results).profiles.len(), 1);
    assert_eq!(lolpros_rows(&accounts, &Vec::new()).riot_ids.len(), 0);
    assert_eq!(lolpros_rows(&Vec::new(), &results).profiles.len(), 0);
}

#[test]
fn riot_id_rows_need_a_game_name_and_a_tag_line() {
    let results = vec![
        Lookup::Found(Account {
            puuid: "puuid-1".to_string(),
            game_name: Some("One".to_string()),
            tag_line: Some("EUW".to_string()),
        }),
        Lookup::Found(Account {
            puuid: "puuid-2".to_string(),
            game_name: None,
            tag_line: Some("EUW".to_string()),
        }),
        Lookup::Found(Account {
            puuid: "puuid-3".to_string(),
            game_name: Some("Three".to_string()),
            tag_line: None,
        }),
        Lookup::Failed,
        Lookup::TimedOut,
        Lookup::Found(Account {
            puuid: "puuid-6".to_string(),
            game_name: Some("".to_string()),
            tag_line: Some("".to_string()),
        }),
    ];
    assert_eq!(
        riot_id_rows(&results),
        vec![
            RiotIdRow {
                puuid: "puuid-1".to_string(),
                game_name: "One".to_string(),
                tag_line: "EUW".to_string(),
            },
            RiotIdRow {
                puuid: "puuid-6".to_string(),
                game_name: "".to_string(),
                tag_line: "".to_string(),
            },
        ]
    );
    assert_eq!(riot_id_rows(&Vec::new()), Vec::new());
}

#[test]
fn summoner_rows_keep_the_found_summoners() {
    let results = vec![
        Lookup::TimedOut,
        Lookup::Found(None),
        Lookup::Found(Some(Summoner {
            puuid: "puuid-1".to_string(),
            id: Some("s1".to_string()),
            account_id: Some("a1".to_string()),
            profile_icon_id: 29,
            summoner_level: 311,
        })),
        Lookup::Failed,
        Lookup::Found(Some(Summoner {
            puuid: "puuid-2".to_string(),
            id: None,
            account_id: None,
            profile_icon_id: i32::MIN,
            summoner_level: i64::MAX,
        })),
    ];
    let rows = summoner_rows(&results, Region::EUN1);
    assert_eq!(
        rows,
        vec![
            SummonerRow {
                puuid: "puuid-1".to_string(),
                summoner_id: Some("s1".to_string()),
                region: Region::EUN1,
                account_id: Some("a1".to_string()),
                profile_icon_id: 29,
                summoner_level: 311,
            },
            SummonerRow {
                puuid: "puuid-2".to_string(),
                summoner_id: None,
                region: Region::EUN1,
                account_id: None,
                profile_icon_id: -2_147_483_648,
                summoner_level: i64::MAX,
            },
        ]
    );
    assert_eq!(summoner_puuids(&rows), vec!["puuid-1".to_string(), "puuid-2".to_string()]);
}

#[test]
fn summoners_of_the_dodges_are_looked_up() {
    let dodge = |id: &str| DodgeEvent {
        summoner_id: id.to_string(),
        region: Region::EUW1,
        lp_before: 100,
        lp_after: 95,
        rank_tier: RankTier::Master,
        at_wins: 1,
        at_losses: 2,
    };
    assert_eq!(
        dodge_summoner_ids(&vec![dodge("b"), dodge("a"), dodge("b")]),
        vec!["b".to_string(), "a".to_string(), "b".to_string()]
    );
    assert_eq!(dodge_summoner_ids(&Vec::new()), Vec::<String>::new());
}
