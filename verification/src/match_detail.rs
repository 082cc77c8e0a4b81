//! The match-detail entities and the exactly-specified kernels of the
//! match-detail parser: the bounded header zip and the round scan.
//!
//! The header's two teams are built by positionally zipping four
//! independently selected sequences; the zip never indexes out of
//! bounds, it pads a missing position with an absent or empty value.
//! Round outcomes are read off per-round marker columns; a round without
//! a win marker is dropped, and a winning square position beyond the two
//! header teams is dropped too.

use vstd::prelude::*;
use vstd::string::*;

use crate::dates::DateTime;
use crate::numbers::{u32_or_zero, u8_or_zero, parse_u8_default, Decimal};
use crate::text::{first_index_of, list_has_str, starts_with};
use crate::utils::href_id_slug;

verus! {

/// Full details of a single match, including all games played.
#[derive(Debug, Clone)]
pub struct Match {
    pub id: u32,
    pub header: MatchHeader,
    pub streams: Vec<MatchStream>,
    pub vods: Vec<MatchStream>,
    pub games: Vec<MatchGame>,
    pub head_to_head: Vec<HeadToHeadMatch>,
    pub past_matches: Vec<TeamPastMatches>,
    pub performance: Option<MatchPerformance>,
    pub economy: Option<MatchEconomy>,
}

/// Header metadata for a match (event info, date, teams).
#[derive(Debug, Clone)]
pub struct MatchHeader {
    pub event_icon: String,
    pub event_title: String,
    pub event_series_name: String,
    pub event_id: u32,
    pub event_slug: String,
    pub date: DateTime,
    pub patch: String,
    pub format: String,
    pub status: String,
    pub note: String,
    pub teams: Vec<MatchHeaderTeam>,
}

/// A team as shown in the match header.
#[derive(Debug, Clone)]
pub struct MatchHeaderTeam {
    pub id: u32,
    pub slug: String,
    pub href: String,
    pub name: String,
    pub score: Option<u8>,
    pub icon: String,
}

/// A stream or VOD link associated with a match.
#[derive(Debug, Clone)]
pub struct MatchStream {
    pub name: String,
    pub link: String,
}

/// Stats for a single game (map) within a match.
#[derive(Debug, Clone)]
pub struct MatchGame {
    pub map: String,
    pub picked_by: Option<u32>,
    pub duration: Option<String>,
    pub teams: Vec<MatchGameTeam>,
    pub rounds: Vec<MatchGameRound>,
}

/// Per-team stats for a single game.
#[derive(Debug, Clone)]
pub struct MatchGameTeam {
    pub name: String,
    pub score: Option<u8>,
    pub score_t: Option<u8>,
    pub score_ct: Option<u8>,
    pub is_winner: bool,
    pub players: Vec<MatchGamePlayer>,
}

/// The outcome of a single round within a game.
#[derive(Debug, Clone)]
pub struct MatchGameRound {
    pub round: u8,
    pub winning_team: u32,
    pub winning_site: String,
}

/// A player's stat line in one game. Every numeric column is
/// independently optional: an unreadable cell leaves only that field
/// absent. Fractional statistics are exact decimals, percentages
/// already divided by one hundred in the scale.
#[derive(Debug, Clone)]
pub struct MatchGamePlayer {
    pub nation: String,
    pub id: u32,
    pub name: String,
    pub slug: String,
    pub agent: String,
    pub rating: Option<Decimal>,
    pub acs: Option<u16>,
    pub kills: Option<u16>,
    pub deaths: Option<u16>,
    pub assists: Option<u16>,
    pub kd_diff: Option<i16>,
    pub kast: Option<Decimal>,
    pub adr: Option<Decimal>,
    pub hs_pct: Option<Decimal>,
    pub first_kills: Option<u16>,
    pub first_deaths: Option<u16>,
    pub fk_diff: Option<i16>,
}

/// A previous head-to-head encounter between the two teams.
#[derive(Debug, Clone)]
pub struct HeadToHeadMatch {
    pub match_id: u32,
    pub match_slug: String,
    pub event_name: String,
    pub event_series: String,
    pub event_icon: String,
    pub team1_score: u8,
    pub team2_score: u8,
    pub winner_index: u8,
    pub date: String,
}

/// A team's recent past matches.
#[derive(Debug, Clone)]
pub struct TeamPastMatches {
    pub team_id: u32,
    pub matches: Vec<PastMatch>,
}

/// A single past match from a team's recent history.
#[derive(Debug, Clone)]
pub struct PastMatch {
    pub match_id: u32,
    pub match_slug: String,
    pub score_for: u8,
    pub score_against: u8,
    pub is_win: bool,
    pub opponent_name: String,
    pub opponent_logo: String,
    pub date: String,
}

/// Overall performance data from the performance tab.
#[derive(Debug, Clone)]
pub struct MatchPerformance {
    pub kill_matrix: Vec<KillMatrixEntry>,
    pub player_performances: Vec<PlayerPerformance>,
}

/// A single cell in the kill matrix (killer versus victim).
#[derive(Debug, Clone, Copy)]
pub struct KillMatrixEntry {
    pub killer_id: u32,
    pub victim_id: u32,
    pub kills: u16,
    pub deaths: u16,
}

/// Detailed performance stats for a single player.
#[derive(Debug, Clone)]
pub struct PlayerPerformance {
    pub player_id: u32,
    pub player_name: String,
    pub multi_kills_2k: u8,
    pub multi_kills_3k: u8,
    pub multi_kills_4k: u8,
    pub multi_kills_5k: u8,
    pub clutch_1v1: u8,
    pub clutch_1v2: u8,
    pub clutch_1v3: u8,
    pub clutch_1v4: u8,
    pub clutch_1v5: u8,
    pub econ_rating: u16,
    pub plants: u8,
    pub defuses: u8,
}

/// Economy data from the economy tab.
#[derive(Debug, Clone)]
pub struct MatchEconomy {
    pub teams: Vec<TeamEconomy>,
}

/// Economy breakdown for a single team.
#[derive(Debug, Clone)]
pub struct TeamEconomy {
    pub team_name: String,
    pub pistol_won: u8,
    pub eco_rounds: u8,
    pub eco_won: u8,
    pub semi_eco_rounds: u8,
    pub semi_eco_won: u8,
    pub semi_buy_rounds: u8,
    pub semi_buy_won: u8,
    pub full_buy_rounds: u8,
    pub full_buy_won: u8,
}

/// The site-relative tail of a header link: what follows the leading
/// slash, empty when there is none.
pub open spec fn site_path(href: Seq<char>) -> Seq<char> {
    if href.len() > 0 && href[0] == '/' {
        href.drop_first()
    } else {
        Seq::empty()
    }
}

/// Whether a parsed optional score agrees with its cell text.
pub open spec fn score_text_matches(sc: Option<u8>, text: Seq<char>) -> bool {
    if crate::numbers::is_unsigned_text(text) && crate::numbers::unsigned_value(text) <= u8::MAX {
        sc matches Some(v) && v == crate::numbers::unsigned_value(text)
    } else {
        sc is None
    }
}

/// The header team at position `i` of the bounded zip: each field comes
/// from its own sequence when position `i` exists there, and falls back
/// to an absent or empty value when it does not. Scores count only when
/// exactly two score cells were found.
pub open spec fn header_team_matches(
    t: MatchHeaderTeam,
    links: Seq<Seq<char>>,
    names: Seq<Seq<char>>,
    score_texts: Seq<Seq<char>>,
    icons: Seq<Seq<char>>,
    i: int,
) -> bool {
    &&& t.id == (if i < links.len() {
        u32_or_zero(href_id_slug(links[i], "/team/"@).0)
    } else {
        0
    })
    &&& t.slug@ == (if i < links.len() {
        href_id_slug(links[i], "/team/"@).1
    } else {
        Seq::<char>::empty()
    })
    &&& t.href@ == (if i < links.len() {
        "https://www.vlr.gg/"@ + site_path(links[i])
    } else {
        Seq::<char>::empty()
    })
    &&& t.name@ == (if i < names.len() {
        names[i]
    } else {
        Seq::<char>::empty()
    })
    &&& (if score_texts.len() == 2 {
        score_text_matches(t.score, score_texts[i])
    } else {
        t.score is None
    })
    &&& t.icon@ == (if i < icons.len() {
        icons[i]
    } else {
        Seq::<char>::empty()
    })
}

fn nth_string(v: &Vec<String>, i: usize) -> (r: String)
    ensures
        r@ == (if (i as int) < v@.len() {
            v@[i as int]@
        } else {
            Seq::<char>::empty()
        }),
{
    if i < v.len() {
        v[i].clone()
    } else {
        String::new()
    }
}

fn header_team_at(
    links: &Vec<String>,
    names: &Vec<String>,
    score_texts: &Vec<String>,
    icons: &Vec<String>,
    i: usize,
) -> (t: MatchHeaderTeam)
    requires
        i < 2,
    ensures
        header_team_matches(
            t,
            links.deep_view(),
            names.deep_view(),
            score_texts.deep_view(),
            icons.deep_view(),
            i as int,
        ),
{
    proof {
        assert(links.deep_view().len() == links@.len());
        assert(names.deep_view().len() == names@.len());
        assert(score_texts.deep_view().len() == score_texts@.len());
        assert(icons.deep_view().len() == icons@.len());
        assert(forall|j: int| 0 <= j < links@.len() ==> links.deep_view()[j] == links@[j]@);
        assert(forall|j: int| 0 <= j < names@.len() ==> names.deep_view()[j] == names@[j]@);
        assert(forall|j: int|
            0 <= j < score_texts@.len() ==> score_texts.deep_view()[j] == score_texts@[j]@);
        assert(forall|j: int| 0 <= j < icons@.len() ==> icons.deep_view()[j] == icons@[j]@);
    }
    let (id, slug, href) = if i < links.len() {
        let link_chars = crate::text::str_chars(links[i].as_str());
        let (id_chars, slug_chars) = crate::utils::split_id_slug(&link_chars, "/team/");
        let id = crate::numbers::parse_u32_default(&id_chars);
        let slug = crate::text::chars_to_string(&slug_chars);
        let mut href = String::from_str("https://www.vlr.gg/");
        if link_chars.len() > 0 && link_chars[0] == '/' {
            let tail = crate::text::chars_slice(&link_chars, 1, link_chars.len());
            proof {
                assert(tail@ =~= site_path(links@[i as int]@));
            }
            let tail_s = crate::text::chars_to_string(&tail);
            href.append(tail_s.as_str());
        } else {
            proof {
                assert(site_path(links@[i as int]@) =~= Seq::<char>::empty());
                assert(href@ =~= "https://www.vlr.gg/"@ + site_path(links@[i as int]@));
            }
        }
        (id, slug, href)
    } else {
        (0u32, String::new(), String::new())
    };
    let name = nth_string(names, i);
    let score: Option<u8> = if score_texts.len() == 2 {
        let sc = crate::text::str_chars(score_texts[i].as_str());
        crate::numbers::parse_u8_opt(&sc)
    } else {
        None
    };
    let icon = nth_string(icons, i);
    MatchHeaderTeam { id, slug, href, name, score, icon }
}

/// The bounded positional zip of the four header team sequences: always
/// exactly two teams, padded with absent or empty fields where a
/// sequence is short.
pub fn zip_header_teams(
    links: &Vec<String>,
    names: &Vec<String>,
    score_texts: &Vec<String>,
    icons: &Vec<String>,
) -> (r: Vec<MatchHeaderTeam>)
    ensures
        r@.len() == 2,
        header_team_matches(
            r@[0],
            links.deep_view(),
            names.deep_view(),
            score_texts.deep_view(),
            icons.deep_view(),
            0,
        ),
        header_team_matches(
            r@[1],
            links.deep_view(),
            names.deep_view(),
            score_texts.deep_view(),
            icons.deep_view(),
            1,
        ),
{
    let t0 = header_team_at(links, names, score_texts, icons, 0);
    let t1 = header_team_at(links, names, score_texts, icons, 1);
    let mut r: Vec<MatchHeaderTeam> = Vec::new();
    r.push(t0);
    r.push(t1);
    r
}

/// The match id and slug of a history-entry link: the path with its
/// single leading slash dropped, split at its first remaining slash.
/// An entry without both a numeric id and a slug yields nothing, and
/// is skipped silently by the history parsers.
pub open spec fn history_path(href: Seq<char>) -> Seq<char> {
    if href.len() > 0 && href[0] == '/' {
        href.drop_first()
    } else {
        href
    }
}

/// Split a history-entry link into its match id and slug, exactly when
/// the id before the first slash is a number that fits 32 bits.
pub fn parse_history_key(href: &str) -> (r: Option<(u32, String)>)
    ensures
        ({
            let rest = history_path(href@);
            let k = crate::text::first_index_of(rest, '/');
            match r {
                Some(pair) => {
                    &&& k < rest.len()
                    &&& crate::numbers::is_unsigned_text(rest.subrange(0, k))
                    &&& crate::numbers::unsigned_value(rest.subrange(0, k)) <= u32::MAX
                    &&& pair.0 == crate::numbers::unsigned_value(rest.subrange(0, k))
                    &&& pair.1@ == rest.subrange(k + 1, rest.len() as int)
                },
                None => !(k < rest.len() && crate::numbers::is_unsigned_text(rest.subrange(0, k))
                    && crate::numbers::unsigned_value(rest.subrange(0, k)) <= u32::MAX),
            }
        }),
{
    let chars = crate::text::str_chars(href);
    let rest = if chars.len() > 0 && chars[0] == '/' {
        let tail = crate::text::chars_slice(&chars, 1, chars.len());
        proof {
            assert(tail@ =~= history_path(href@));
        }
        tail
    } else {
        chars
    };
    let (id_chars, after) = crate::text::chars_split_first(&rest, '/');
    proof {
        crate::text::lemma_first_index_of(rest@, '/');
        if crate::text::first_index_of(rest@, '/') == rest@.len() {
            assert(rest@.subrange(0, crate::text::first_index_of(rest@, '/')) =~= rest@);
        }
    }
    match after {
        Some(slug_chars) => {
            match crate::numbers::parse_u32_opt(&id_chars) {
                Some(id) => Some((id, crate::text::chars_to_string(&slug_chars))),
                None => None,
            }
        },
        None => None,
    }
}

/// The id text and slug of the header's event link: what splitting the
/// path after the event prefix at its first two slashes yields; a path
/// without the prefix yields empty parts, and a missing segment stays
/// empty.
pub open spec fn event_ref_parts(href: Seq<char>) -> (Seq<char>, Seq<char>) {
    let rest = if starts_with(href, "/event/"@) {
        href.subrange("/event/"@.len() as int, href.len() as int)
    } else {
        Seq::empty()
    };
    let k = first_index_of(rest, '/');
    let idp = rest.subrange(0, k);
    let slugp = if k < rest.len() {
        let tail = rest.subrange(k + 1, rest.len() as int);
        tail.subrange(0, first_index_of(tail, '/'))
    } else {
        Seq::<char>::empty()
    };
    (idp, slugp)
}

/// Split the header's event link into its id text and slug.
pub fn parse_event_ref(href: &str) -> (r: (u32, String))
    ensures
        r.0 == crate::numbers::u32_or_zero(event_ref_parts(href@).0),
        r.1@ == event_ref_parts(href@).1,
{
    let href_chars = crate::text::str_chars(href);
    let rest = match crate::text::chars_strip_prefix(&href_chars, "/event/") {
        Some(rest) => rest,
        None => Vec::new(),
    };
    proof {
        crate::text::lemma_first_index_of(rest@, '/');
        if first_index_of(rest@, '/') == rest@.len() {
            assert(rest@.subrange(0, first_index_of(rest@, '/')) =~= rest@);
        }
    }
    let (id_chars, after) = crate::text::chars_split_first(&rest, '/');
    let id = crate::numbers::parse_u32_default(&id_chars);
    let slug = match after {
        Some(after) => {
            proof {
                crate::text::lemma_first_index_of(after@, '/');
                if first_index_of(after@, '/') == after@.len() {
                    assert(after@.subrange(0, first_index_of(after@, '/')) =~= after@);
                }
            }
            let (slug_chars, _tail) = crate::text::chars_split_first(&after, '/');
            crate::text::chars_to_string(&slug_chars)
        },
        None => String::new(),
    };
    (id, slug)
}

/// One outcome square of a round column, by its (trimmed) class tokens.
#[derive(Debug, Clone)]
pub struct RoundSquare {
    pub classes: Vec<String>,
}

/// A round marker column as read off the page.
#[derive(Debug, Clone)]
pub struct RawRound {
    pub num_text: String,
    pub squares: Vec<RoundSquare>,
}

/// Whether the square carries the win marker class.
pub open spec fn square_wins(sq: RoundSquare) -> bool {
    sq.classes.deep_view().contains("mod-win"@)
}

/// The position of the first winning square, or the number of squares
/// when no square won.
pub open spec fn first_win_index(squares: Seq<RoundSquare>) -> int
    decreases squares.len(),
{
    if squares.len() == 0 {
        0
    } else if square_wins(squares[0]) {
        0
    } else {
        1 + first_win_index(squares.drop_first())
    }
}

pub proof fn lemma_first_win_index(squares: Seq<RoundSquare>)
    ensures
        0 <= first_win_index(squares) <= squares.len(),
        first_win_index(squares) < squares.len() ==> square_wins(
            squares[first_win_index(squares)],
        ),
        forall|j: int| 0 <= j < first_win_index(squares) ==> !square_wins(squares[j]),
    decreases squares.len(),
{
    if squares.len() > 0 && !square_wins(squares[0]) {
        lemma_first_win_index(squares.drop_first());
        assert forall|j: int| 0 <= j < first_win_index(squares) implies !square_wins(
            squares[j],
        ) by {
            if j > 0 {
                assert(squares.drop_first()[j - 1] == squares[j]);
            }
        }
    }
}

/// A round that yields an outcome: some square won, and its position
/// maps to one of the teams.
pub open spec fn round_decided(raw: RawRound, nteams: int) -> bool {
    first_win_index(raw.squares@) < raw.squares@.len() && first_win_index(raw.squares@) < nteams
}

/// How many of the first `i` round columns yield an outcome.
pub open spec fn decided_count(rounds: Seq<RawRound>, nteams: int, i: int) -> int
    decreases i,
{
    if i <= 0 {
        0
    } else {
        decided_count(rounds, nteams, i - 1) + if round_decided(rounds[i - 1], nteams) {
            1int
        } else {
            0int
        }
    }
}

/// The number a round column labels itself with; zero when unreadable.
pub open spec fn round_num_of(raw: RawRound) -> int {
    u8_or_zero(raw.num_text@)
}

/// A finished round outcome agrees with its column: the number, the
/// team at the winning square's position, and the side class of that
/// square (`t` when marked, `ct` otherwise).
pub open spec fn round_matches(out: MatchGameRound, raw: RawRound, team_ids: Seq<u32>) -> bool {
    let w = first_win_index(raw.squares@);
    &&& out.round == round_num_of(raw)
    &&& 0 <= w < team_ids.len()
    &&& out.winning_team == team_ids[w]
    &&& out.winning_site@ == (if raw.squares@[w].classes.deep_view().contains("mod-t"@) {
        "t"@
    } else {
        "ct"@
    })
}

/// The j-th outcome comes from the round column at which j decided
/// columns had gone before.
pub open spec fn round_has_source(
    out: Seq<MatchGameRound>,
    rounds: Seq<RawRound>,
    team_ids: Seq<u32>,
    j: int,
) -> bool {
    exists|k: int|
        #![trigger decided_count(rounds, team_ids.len() as int, k)]
        {
            &&& 0 <= k < rounds.len()
            &&& decided_count(rounds, team_ids.len() as int, k) == j
            &&& round_decided(rounds[k], team_ids.len() as int)
            &&& round_matches(out[j], rounds[k], team_ids)
        }
}

/// Every outcome agrees with its source round column.
pub open spec fn rounds_match(
    out: Seq<MatchGameRound>,
    rounds: Seq<RawRound>,
    team_ids: Seq<u32>,
) -> bool {
    forall|j: int| 0 <= j < out.len() ==> #[trigger] round_has_source(out, rounds, team_ids, j)
}

fn find_win_square(squares: &Vec<RoundSquare>) -> (r: Option<usize>)
    ensures
        match r {
            Some(i) => i == first_win_index(squares@) && i < squares@.len(),
            None => first_win_index(squares@) == squares@.len(),
        },
{
    proof {
        lemma_first_win_index(squares@);
    }
    let ghost fw = first_win_index(squares@);
    let mut i: usize = 0;
    while i < squares.len()
        invariant
            i <= squares@.len(),
            fw == first_win_index(squares@),
            0 <= fw <= squares@.len(),
            fw < squares@.len() ==> square_wins(squares@[fw]),
            forall|j: int| 0 <= j < fw ==> !square_wins(squares@[j]),
            forall|j: int| 0 <= j < i ==> !square_wins(squares@[j]),
        decreases squares@.len() - i,
    {
        if list_has_str(&squares[i].classes, "mod-win") {
            proof {
                assert(square_wins(squares@[i as int]));
                if fw > i {
                    assert(!square_wins(squares@[i as int]));
                }
            }
            return Some(i);
        }
        i = i + 1;
    }
    proof {
        if fw < squares@.len() {
            assert(!square_wins(squares@[fw]));
        }
    }
    None
}

/// Scan the round columns into outcomes, in order.
///
/// Every outcome's winning team id is one of the given team ids; a
/// column without a win marker, or whose winning square lies beyond the
/// team list, yields nothing.
pub fn assemble_rounds(rounds: &Vec<RawRound>, team_ids: &Vec<u32>) -> (r: Vec<MatchGameRound>)
    ensures
        r@.len() == decided_count(rounds@, team_ids@.len() as int, rounds@.len() as int),
        rounds_match(r@, rounds@, team_ids@),
        forall|j: int| 0 <= j < r@.len() ==> team_ids@.contains(#[trigger] r@[j].winning_team),
{
    let ghost nteams = team_ids@.len() as int;
    let mut out: Vec<MatchGameRound> = Vec::new();
    let mut i: usize = 0;
    while i < rounds.len()
        invariant
            i <= rounds@.len(),
            nteams == team_ids@.len(),
            out@.len() == decided_count(rounds@, nteams, i as int),
            rounds_match(out@, rounds@, team_ids@),
            forall|j: int| 0 <= j < out@.len() ==> team_ids@.contains(
                #[trigger] out@[j].winning_team,
            ),
        decreases rounds@.len() - i,
    {
        let raw = &rounds[i];
        match find_win_square(&raw.squares) {
            Some(w) => {
                if w < team_ids.len() {
                    let num_chars = crate::text::str_chars(raw.num_text.as_str());
                    let round = parse_u8_default(&num_chars);
                    let winning_team = team_ids[w];
                    let winning_site = if list_has_str(&raw.squares[w].classes, "mod-t") {
                        String::from_str("t")
                    } else {
                        String::from_str("ct")
                    };
                    let outcome = MatchGameRound { round, winning_team, winning_site };
                    proof {
                        assert(round_decided(rounds@[i as int], nteams));
                        assert(round_matches(outcome, rounds@[i as int], team_ids@));
                        assert(team_ids@.contains(outcome.winning_team));
                    }
                    let ghost old_out = out@;
                    out.push(outcome);
                    proof {
                        let j = out@.len() - 1;
                        assert(rounds_match(out@, rounds@, team_ids@)) by {
                            assert forall|jj: int|
                                0 <= jj < out@.len() implies #[trigger] round_has_source(
                                out@,
                                rounds@,
                                team_ids@,
                                jj,
                            ) by {
                                if jj < j {
                                    assert(round_has_source(old_out, rounds@, team_ids@, jj));
                                    let k = choose|k: int|
                                        #![trigger decided_count(rounds@, team_ids@.len() as int, k)]
                                        {
                                            &&& 0 <= k < rounds@.len()
                                            &&& decided_count(
                                                rounds@,
                                                team_ids@.len() as int,
                                                k,
                                            ) == jj
                                            &&& round_decided(
                                                rounds@[k],
                                                team_ids@.len() as int,
                                            )
                                            &&& round_matches(old_out[jj], rounds@[k], team_ids@)
                                        };
                                    assert(out@[jj] == old_out[jj]);
                                    assert(round_matches(out@[jj], rounds@[k], team_ids@));
                                } else {
                                    assert(out@[j] == outcome);
                                    assert(decided_count(rounds@, team_ids@.len() as int, i as int)
                                        == j);
                                }
                            }
                        }
                    }
                } else {
                    proof {
                        assert(!round_decided(rounds@[i as int], nteams));
                    }
                }
            },
            None => {
                proof {
                    assert(!round_decided(rounds@[i as int], nteams));
                }
            },
        }
        i = i + 1;
    }
    out
}

pub proof fn lemma_decided_count_mono(rounds: Seq<RawRound>, nteams: int, i: int, j: int)
    requires
        0 <= i <= j <= rounds.len(),
    ensures
        decided_count(rounds, nteams, i) <= decided_count(rounds, nteams, j),
    decreases j - i,
{
    if i < j {
        lemma_decided_count_mono(rounds, nteams, i, j - 1);
    }
}

/// Law: round outcomes keep the page's order. Whenever the round
/// columns label themselves with nondecreasing round numbers, the
/// outcomes the scan keeps are nondecreasing by round number too; and
/// every outcome's winning team is one of the given team ids.
pub proof fn lemma_rounds_ordered(
    out: Seq<MatchGameRound>,
    rounds: Seq<RawRound>,
    team_ids: Seq<u32>,
)
    requires
        rounds_match(out, rounds, team_ids),
        forall|a: int, b: int|
            0 <= a < b < rounds.len() ==> #[trigger] round_num_of(rounds[a])
                <= #[trigger] round_num_of(rounds[b]),
    ensures
        forall|a: int, b: int| 0 <= a < b < out.len() ==> #[trigger] out[a].round
            <= #[trigger] out[b].round,
        forall|j: int| 0 <= j < out.len() ==> team_ids.contains(#[trigger] out[j].winning_team),
{
    let nteams = team_ids.len() as int;
    assert forall|a: int, b: int| 0 <= a < b < out.len() implies #[trigger] out[a].round
        <= #[trigger] out[b].round by {
        assert(round_has_source(out, rounds, team_ids, a));
        assert(round_has_source(out, rounds, team_ids, b));
        let ka = choose|k: int|
            #![trigger decided_count(rounds, team_ids.len() as int, k)]
            {
                &&& 0 <= k < rounds.len()
                &&& decided_count(rounds, team_ids.len() as int, k) == a
                &&& round_decided(rounds[k], team_ids.len() as int)
                &&& round_matches(out[a], rounds[k], team_ids)
            };
        let kb = choose|k: int|
            #![trigger decided_count(rounds, team_ids.len() as int, k)]
            {
                &&& 0 <= k < rounds.len()
                &&& decided_count(rounds, team_ids.len() as int, k) == b
                &&& round_decided(rounds[k], team_ids.len() as int)
                &&& round_matches(out[b], rounds[k], team_ids)
            };
        if kb <= ka {
            lemma_decided_count_mono(rounds, nteams, kb, ka);
            assert(decided_count(rounds, nteams, ka + 1) == a + 1);
            lemma_decided_count_mono(rounds, nteams, kb + 1, ka + 1);
        }
        assert(ka < kb);
        assert(round_num_of(rounds[ka]) <= round_num_of(rounds[kb]));
    }
    assert forall|j: int| 0 <= j < out.len() implies team_ids.contains(
        #[trigger] out[j].winning_team,
    ) by {
        assert(round_has_source(out, rounds, team_ids, j));
        let k = choose|k: int|
            #![trigger decided_count(rounds, team_ids.len() as int, k)]
            {
                &&& 0 <= k < rounds.len()
                &&& decided_count(rounds, team_ids.len() as int, k) == j
                &&& round_decided(rounds[k], team_ids.len() as int)
                &&& round_matches(out[j], rounds[k], team_ids)
            };
        let w = first_win_index(rounds[k].squares@);
        assert(out[j].winning_team == team_ids[w]);
    }
}

} // verus!
