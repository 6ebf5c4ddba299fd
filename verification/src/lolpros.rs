//! Profile enrichment: the search address of a player, the reading of a search
//! hit, and the rows that the answered searches give.
use vstd::prelude::*;
use vstd::string::*;
use vstd::utf8::encode_utf8;
use crate::model::{Lookup, same_text};
use crate::riot_ids::RiotIdRow;
use crate::sequences::views;

verus! {

/// The role that a profile names.
#[derive(Clone, Copy, Debug, PartialEq, Eq, Structural)]
pub enum Position {
    Top,
    Jungle,
    Mid,
    Bot,
    Support,
}

/// A player's profile at the profile service.
#[derive(Clone, Debug, PartialEq, Eq)]
pub struct LolprosProfile {
    pub slug: String,
    pub name: String,
    pub country: String,
    pub position: Position,
}

/// A profile as a mathematical value.
pub struct LolprosProfileView {
    pub slug: Seq<char>,
    pub name: Seq<char>,
    pub country: Seq<char>,
    pub position: Position,
}

impl View for LolprosProfile {
    type V = LolprosProfileView;

    open spec fn view(&self) -> LolprosProfileView {
        LolprosProfileView {
            slug: self.slug@,
            name: self.name@,
            country: self.country@,
            position: self.position,
        }
    }
}

/// The text fields of a search hit, each absent where the hit does not hold it
/// as a string.
#[derive(Clone, Debug, PartialEq, Eq)]
pub struct ProfileFields {
    pub slug: Option<String>,
    pub name: Option<String>,
    pub country: Option<String>,
    /// The position of the hit's league player.
    pub position: Option<String>,
}

/// Why a search hit is no profile.
#[derive(Clone, Copy, Debug, PartialEq, Eq, Structural)]
pub enum ProfileError {
    MissingSlug,
    MissingName,
    MissingCountry,
    MissingPosition,
    UnknownPosition,
}

/// What is said of each error.
pub open spec fn error_text(error: ProfileError) -> Seq<char> {
    match error {
        ProfileError::MissingSlug => "Missing slug field"@,
        ProfileError::MissingName => "Missing name field"@,
        ProfileError::MissingCountry => "Missing country field"@,
        ProfileError::MissingPosition => "Missing position field"@,
        ProfileError::UnknownPosition => "Unknown position for lolpros player"@,
    }
}

impl ProfileError {
    /// The error in words.
    pub fn message(&self) -> (text: &'static str)
        ensures
            text@ == error_text(*self),
    {
        match self {
            ProfileError::MissingSlug => "Missing slug field",
            ProfileError::MissingName => "Missing name field",
            ProfileError::MissingCountry => "Missing country field",
            ProfileError::MissingPosition => "Missing position field",
            ProfileError::UnknownPosition => "Unknown position for lolpros player",
        }
    }
}

/// The slug that a player's account row is given.
#[derive(Clone, Debug, PartialEq, Eq)]
pub struct RiotIdSlugRow {
    pub puuid: String,
    pub lolpros_slug: String,
}

/// A slug row as a mathematical value.
pub struct RiotIdSlugRowView {
    pub puuid: Seq<char>,
    pub lolpros_slug: Seq<char>,
}

impl View for RiotIdSlugRow {
    type V = RiotIdSlugRowView;

    open spec fn view(&self) -> RiotIdSlugRowView {
        RiotIdSlugRowView { puuid: self.puuid@, lolpros_slug: self.lolpros_slug@ }
    }
}

/// What the answered profile searches of a cycle give to storage.
#[derive(Clone, Debug, PartialEq, Eq)]
pub struct LolprosUpserts {
    pub riot_ids: Vec<RiotIdSlugRow>,
    pub profiles: Vec<LolprosProfile>,
}

/// Whether a byte stands for itself in a percent-encoded text: the ASCII
/// letters and digits, and `-`, `.`, `_`, `~`.
pub open spec fn is_unreserved(byte: u8) -> bool {
    ||| 0x30 <= byte <= 0x39
    ||| 0x41 <= byte <= 0x5a
    ||| 0x61 <= byte <= 0x7a
    ||| byte == 0x2d
    ||| byte == 0x2e
    ||| byte == 0x5f
    ||| byte == 0x7e
}

/// The upper-case hexadecimal digit of a value below sixteen.
pub open spec fn hex_digit(nibble: u8) -> char {
    if nibble < 10 {
        (0x30 + nibble) as char
    } else {
        (0x41 + nibble - 10) as char
    }
}

/// One byte, percent-encoded.
pub open spec fn percent_encoded_byte(byte: u8) -> Seq<char> {
    if is_unreserved(byte) {
        seq![byte as char]
    } else {
        seq!['%', hex_digit(byte / 16), hex_digit(byte % 16)]
    }
}

/// A text, percent-encoded byte by byte in its UTF-8 form.
pub open spec fn percent_encoded(text: Seq<char>) -> Seq<char> {
    encode_utf8(text).flat_map(|byte: u8| percent_encoded_byte(byte))
}

/// Percent-encodes `text` with `urlencoding::encode`. Trusted: that the crate
/// keeps every unreserved byte of the UTF-8 form and writes every other byte
/// as `%` and two upper-case hexadecimal digits.
#[verifier::external_body]
fn percent_encode(text: &str) -> (encoded: String)
    ensures
        encoded@ == percent_encoded(text@),
{
    urlencoding::encode(text).into_owned()
}

/// The address at which the profile service is searched for a Riot id.
pub open spec fn search_url(game_name: Seq<char>, tag_line: Seq<char>) -> Seq<char> {
    "https://api.lolpros.gg/es/search?query="@ + percent_encoded(game_name + "#"@ + tag_line)
}

/// Builds the search address for the Riot id `game_name#tag_line`.
pub fn lolpros_search_url(game_name: &str, tag_line: &str) -> (url: String)
    ensures
        url@ == search_url(game_name@, tag_line@),
{
    let riot_id = String::from_str(game_name).concat("#").concat(tag_line);
    let query = percent_encode(riot_id.as_str());
    String::from_str("https://api.lolpros.gg/es/search?query=").concat(query.as_str())
}

/// The position that a position code of the profile service names.
pub open spec fn position_of_code(code: Seq<char>) -> Option<Position> {
    if code == "10_top"@ {
        Some(Position::Top)
    } else if code == "20_jungle"@ {
        Some(Position::Jungle)
    } else if code == "30_mid"@ {
        Some(Position::Mid)
    } else if code == "40_adc"@ {
        Some(Position::Bot)
    } else if code == "50_support"@ {
        Some(Position::Support)
    } else {
        None
    }
}

/// Reads a position code.
pub fn parse_position(code: &str) -> (position: Option<Position>)
    ensures
        position == position_of_code(code@),
{
    if same_text(code, "10_top") {
        Some(Position::Top)
    } else if same_text(code, "20_jungle") {
        Some(Position::Jungle)
    } else if same_text(code, "30_mid") {
        Some(Position::Mid)
    } else if same_text(code, "40_adc") {
        Some(Position::Bot)
    } else if same_text(code, "50_support") {
        Some(Position::Support)
    } else {
        None
    }
}

/// What the first hit of a search gives: no profile where there is no hit, an
/// error for the first field that is missing or for a position code that is
/// not known, else the profile.
pub open spec fn profile_of_hit(hit: Option<ProfileFields>) -> Result<
    Option<LolprosProfileView>,
    ProfileError,
> {
    match hit {
        None => Ok(None),
        Some(fields) => if fields.slug is None {
            Err(ProfileError::MissingSlug)
        } else if fields.name is None {
            Err(ProfileError::MissingName)
        } else if fields.country is None {
            Err(ProfileError::MissingCountry)
        } else if fields.position is None {
            Err(ProfileError::MissingPosition)
        } else {
            match position_of_code(fields.position->0@) {
                None => Err(ProfileError::UnknownPosition),
                Some(position) => Ok(
                    Some(
                        LolprosProfileView {
                            slug: fields.slug->0@,
                            name: fields.name->0@,
                            country: fields.country->0@,
                            position,
                        },
                    ),
                ),
            }
        },
    }
}

/// The view of what `parse_profile` returns.
pub open spec fn parsed_view(parsed: Result<Option<LolprosProfile>, ProfileError>) -> Result<
    Option<LolprosProfileView>,
    ProfileError,
> {
    match parsed {
        Ok(Some(profile)) => Ok(Some(profile@)),
        Ok(None) => Ok(None),
        Err(error) => Err(error),
    }
}

/// Reads the first hit of a profile search.
pub fn parse_profile(hit: Option<ProfileFields>) -> (parsed: Result<
    Option<LolprosProfile>,
    ProfileError,
>)
    ensures
        parsed_view(parsed) == profile_of_hit(hit),
{
    let fields = match hit {
        None => {
            return Ok(None);
        },
        Some(fields) => fields,
    };
    let slug = match fields.slug {
        None => {
            return Err(ProfileError::MissingSlug);
        },
        Some(slug) => slug,
    };
    let name = match fields.name {
        None => {
            return Err(ProfileError::MissingName);
        },
        Some(name) => name,
    };
    let country = match fields.country {
        None => {
            return Err(ProfileError::MissingCountry);
        },
        Some(country) => country,
    };
    let code = match fields.position {
        None => {
            return Err(ProfileError::MissingPosition);
        },
        Some(code) => code,
    };
    match parse_position(code.as_str()) {
        None => Err(ProfileError::UnknownPosition),
        Some(position) => Ok(Some(LolprosProfile { slug, name, country, position })),
    }
}

/// The accounts paired with the outcomes of their searches, as far as both go.
pub open spec fn searched(
    accounts: Seq<RiotIdRow>,
    results: Seq<Lookup<Option<LolprosProfile>>>,
) -> Seq<(RiotIdRow, Lookup<Option<LolprosProfile>>)> {
    Seq::new(
        if accounts.len() <= results.len() {
            accounts.len()
        } else {
            results.len()
        },
        |i: int| (accounts[i], results[i]),
    )
}

/// The slug row of an account whose search found a profile.
pub open spec fn slug_row_of(pair: (RiotIdRow, Lookup<Option<LolprosProfile>>)) -> Option<
    RiotIdSlugRowView,
> {
    match pair.1 {
        Lookup::Found(Some(profile)) => Some(
            RiotIdSlugRowView { puuid: pair.0.puuid@, lolpros_slug: profile.slug@ },
        ),
        _ => None,
    }
}

/// The profile that the search of an account found, if it found one.
pub open spec fn found_profile_of(
    pair: (RiotIdRow, Lookup<Option<LolprosProfile>>),
) -> Option<LolprosProfileView> {
    match pair.1 {
        Lookup::Found(Some(profile)) => Some(profile@),
        _ => None,
    }
}

/// Gathers what the searches of a cycle give to storage: for each account
/// whose search found a profile, in the order of the accounts, the slug of the
/// account and the profile. A search that found nothing, failed or timed out
/// gives nothing.
pub fn lolpros_rows(accounts: &Vec<RiotIdRow>, results: &Vec<Lookup<Option<LolprosProfile>>>) -> (rows:
    LolprosUpserts)
    ensures
        views(rows.riot_ids@) == searched(accounts@, results@).filter_map(
            |pair: (RiotIdRow, Lookup<Option<LolprosProfile>>)| slug_row_of(pair),
        ),
        views(rows.profiles@) == searched(accounts@, results@).filter_map(
            |pair: (RiotIdRow, Lookup<Option<LolprosProfile>>)| found_profile_of(pair),
        ),
{
    let mut riot_ids: Vec<RiotIdSlugRow> = Vec::new();
    let mut profiles: Vec<LolprosProfile> = Vec::new();
    let n: usize = if accounts.len() < results.len() {
        accounts.len()
    } else {
        results.len()
    };
    let ghost pairs = searched(accounts@, results@);
    let mut i: usize = 0;
    assert(pairs.take(0) =~= Seq::empty());
    assert(views(riot_ids@) =~= Seq::empty());
    assert(views(profiles@) =~= Seq::empty());
    while i < n
        invariant
            i <= n,
            n == pairs.len(),
            n <= accounts.len(),
            n <= results.len(),
            pairs == searched(accounts@, results@),
            views(riot_ids@) == pairs.take(i as int).filter_map(
                |pair: (RiotIdRow, Lookup<Option<LolprosProfile>>)| slug_row_of(pair),
            ),
            views(profiles@) == pairs.take(i as int).filter_map(
                |pair: (RiotIdRow, Lookup<Option<LolprosProfile>>)| found_profile_of(pair),
            ),
        decreases n - i,
    {
        let ghost slugs_before = riot_ids@;
        let ghost profiles_before = profiles@;
        proof {
            pairs.lemma_filter_map_take_succ(
                |pair: (RiotIdRow, Lookup<Option<LolprosProfile>>)| slug_row_of(pair),
                i as int,
            );
            pairs.lemma_filter_map_take_succ(
                |pair: (RiotIdRow, Lookup<Option<LolprosProfile>>)| found_profile_of(pair),
                i as int,
            );
            assert(pairs[i as int] == (accounts@[i as int], results@[i as int]));
        }
        match &results[i] {
            Lookup::Found(Some(profile)) => {
                let slug_row = RiotIdSlugRow {
                    puuid: accounts[i].puuid.clone(),
                    lolpros_slug: profile.slug.clone(),
                };
                let copy = LolprosProfile {
                    slug: profile.slug.clone(),
                    name: profile.name.clone(),
                    country: profile.country.clone(),
                    position: profile.position,
                };
                riot_ids.push(slug_row);
                profiles.push(copy);
                assert(views(riot_ids@) =~= views(slugs_before) + seq![slug_row@]);
                assert(views(profiles@) =~= views(profiles_before) + seq![copy@]);
            },
            _ => {},
        }
        i = i + 1;
    }
    assert(pairs.take(n as int) =~= pairs);
    LolprosUpserts { riot_ids, profiles }
}

} // verus!
