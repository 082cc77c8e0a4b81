//! The match-detail page parser: header, streams, per-map games with
//! rounds and player stat lines, the auxiliary history sections, and
//! the optional performance and economy tabs.
//!
//! Only the match column, the match header, its event icon and its
//! machine timestamp are structurally required; everything else
//! degrades into absent or empty values. The performance and economy
//! tabs are separate documents fetched best-effort by the caller: an
//! absent tab document leaves the corresponding section absent without
//! failing the parse.

use vstd::prelude::*;
use vstd::string::*;

use crate::dates::parse_datetime;
use crate::dom;
use crate::error::VlrError;
use crate::match_detail::{
    assemble_rounds, zip_header_teams, HeadToHeadMatch, KillMatrixEntry, Match, MatchEconomy,
    MatchGame, MatchGamePlayer, MatchGameTeam, MatchHeader, MatchPerformance, MatchStream,
    PastMatch, PlayerPerformance, RawRound, RoundSquare, TeamEconomy, TeamPastMatches,
};
use crate::match_stats::{
    all_players, assoc_map, build_kill_row, build_player_name_map, build_player_performance,
    build_team_economy, id_resolved, lemma_lookup_resolved, name_map_get, name_map_of,
    EconRowCells, KillCell,
};
use crate::numbers::{
    is_decimal_text, is_signed_text, is_unsigned_text, parse_decimal, parse_i16_opt, parse_u8_opt,
    parse_u16_opt, signed_value, unsigned_value, Decimal,
};
use crate::text::{
    chars_strip_suffix_char, chars_to_string, remove_char_all, str_chars, trim_chars,
    without_char,
};
use crate::utils::{normalize_img_url, split_id_slug};

verus! {

fn compile(expr: &str) -> Result<scraper::Selector, VlrError> {
    match dom::compile_selector(expr) {
        Some(sel) => Ok(sel),
        None => Err(VlrError::Selector(String::from_str(expr))),
    }
}

/// An optional stat cell parsed as `u16` agrees with its text: present
/// exactly when the cell was there and its text is a number in range.
pub open spec fn u16_stat_matches(r: Option<u16>, t: Option<String>) -> bool {
    match t {
        Some(s) => {
            if is_unsigned_text(s@) && unsigned_value(s@) <= u16::MAX {
                r matches Some(v) && v == unsigned_value(s@)
            } else {
                r is None
            }
        },
        None => r is None,
    }
}

/// A differential cell parsed as `i16` agrees with its text once every
/// plus sign is dropped, the way a `+3` differential is written.
pub open spec fn i16_diff_matches(r: Option<i16>, t: Option<String>) -> bool {
    match t {
        Some(s) => {
            let w = without_char(s@, '+');
            if is_signed_text(w) && i16::MIN <= signed_value(w) <= i16::MAX {
                r matches Some(v) && v == signed_value(w)
            } else {
                r is None
            }
        },
        None => r is None,
    }
}

/// An optional stat cell parsed as an exact decimal agrees with its
/// text.
pub open spec fn decimal_stat_matches(r: Option<Decimal>, t: Option<String>) -> bool {
    match t {
        Some(s) => {
            if is_decimal_text(s@) {
                r matches Some(d) && d.negative == crate::numbers::decimal_negative(s@)
                    && d.mantissa == crate::numbers::decimal_mantissa(s@) && d.scale
                    == crate::numbers::decimal_scale(s@)
            } else {
                r is None
            }
        },
        None => r is None,
    }
}

/// A percentage cell agrees with its text: the decimal before a
/// trailing percent sign, its scale raised by two for the division by
/// one hundred.
pub open spec fn pct_stat_matches(r: Option<Decimal>, t: Option<String>) -> bool {
    match t {
        Some(s) => {
            let w = if s@.len() > 0 && s@.last() == '%' {
                s@.drop_last()
            } else {
                s@
            };
            if is_decimal_text(w) {
                r matches Some(d) && d.negative == crate::numbers::decimal_negative(w)
                    && d.mantissa == crate::numbers::decimal_mantissa(w) && d.scale
                    == crate::numbers::decimal_scale(w) + 2
            } else {
                r is None
            }
        },
        None => r is None,
    }
}

/// An optional stat cell text parsed as `u16`.
pub fn stat_u16(t: &Option<String>) -> (r: Option<u16>)
    ensures
        u16_stat_matches(r, *t),
{
    match t {
        Some(s) => {
            let chars = str_chars(s.as_str());
            parse_u16_opt(&chars)
        },
        None => None,
    }
}

/// An optional differential cell parsed as `i16` after every plus sign
/// is dropped.
pub fn stat_i16_diff(t: &Option<String>) -> (r: Option<i16>)
    ensures
        i16_diff_matches(r, *t),
{
    match t {
        Some(s) => {
            let chars = str_chars(s.as_str());
            let stripped = remove_char_all(&chars, '+');
            parse_i16_opt(&stripped)
        },
        None => None,
    }
}

/// An optional stat cell parsed as an exact decimal.
pub fn stat_decimal(t: &Option<String>) -> (r: Option<Decimal>)
    ensures
        decimal_stat_matches(r, *t),
{
    match t {
        Some(s) => {
            let chars = str_chars(s.as_str());
            parse_decimal(&chars)
        },
        None => None,
    }
}

/// An optional percentage cell parsed as an exact decimal already
/// divided by one hundred: a trailing percent sign is dropped first,
/// and the division adds two to the scale.
pub fn stat_pct(t: &Option<String>) -> (r: Option<Decimal>)
    ensures
        pct_stat_matches(r, *t),
{
    match t {
        Some(s) => {
            let chars = str_chars(s.as_str());
            let body = match chars_strip_suffix_char(&chars, '%') {
                Some(b) => b,
                None => chars,
            };
            match parse_decimal(&body) {
                Some(d) => Some(
                    Decimal { negative: d.negative, mantissa: d.mantissa, scale: d.scale + 2 },
                ),
                None => None,
            }
        },
        None => None,
    }
}

/// The text of the both-sides span of a stat cell, when the cell and
/// the span are there.
fn stat_both(
    doc: &scraper::Html,
    cells: &Vec<ego_tree::NodeId>,
    idx: usize,
    both_sel: &scraper::Selector,
) -> Option<String> {
    if idx >= cells.len() {
        return None;
    }
    let found = dom::select_within(doc, cells[idx], both_sel);
    if found.len() == 0 {
        return None;
    }
    let texts = dom::node_texts(doc, found[0]);
    if texts.len() == 0 {
        return None;
    }
    Some(dom::first_text_of(&texts))
}

/// Assemble one player stat line from its extracted values: the id and
/// slug come from the link path (zero and empty when it does not split
/// as a player path), and each of the twelve stat columns agrees with
/// its cell in fixed order, independently optional.
pub fn build_game_player(
    nation: String,
    href: &str,
    name: String,
    agent: String,
    cells: &Vec<Option<String>>,
) -> (r: MatchGamePlayer)
    requires
        cells@.len() == 12,
    ensures
        r.nation == nation,
        r.name == name,
        r.agent == agent,
        r.id == crate::numbers::u32_or_zero(crate::utils::href_id_slug(href@, "/player/"@).0),
        r.slug@ == crate::utils::href_id_slug(href@, "/player/"@).1,
        decimal_stat_matches(r.rating, cells@[0]),
        u16_stat_matches(r.acs, cells@[1]),
        u16_stat_matches(r.kills, cells@[2]),
        u16_stat_matches(r.deaths, cells@[3]),
        u16_stat_matches(r.assists, cells@[4]),
        i16_diff_matches(r.kd_diff, cells@[5]),
        pct_stat_matches(r.kast, cells@[6]),
        decimal_stat_matches(r.adr, cells@[7]),
        pct_stat_matches(r.hs_pct, cells@[8]),
        u16_stat_matches(r.first_kills, cells@[9]),
        u16_stat_matches(r.first_deaths, cells@[10]),
        i16_diff_matches(r.fk_diff, cells@[11]),
{
    let href_chars = str_chars(href);
    let (id_chars, slug_chars) = split_id_slug(&href_chars, "/player/");
    let id = crate::numbers::parse_u32_default(&id_chars);
    let slug = chars_to_string(&slug_chars);
    let rating = stat_decimal(&cells[0]);
    let acs = stat_u16(&cells[1]);
    let kills = stat_u16(&cells[2]);
    let deaths = stat_u16(&cells[3]);
    let assists = stat_u16(&cells[4]);
    let kd_diff = stat_i16_diff(&cells[5]);
    let kast = stat_pct(&cells[6]);
    let adr = stat_decimal(&cells[7]);
    let hs_pct = stat_pct(&cells[8]);
    let first_kills = stat_u16(&cells[9]);
    let first_deaths = stat_u16(&cells[10]);
    let fk_diff = stat_i16_diff(&cells[11]);
    MatchGamePlayer {
        nation,
        id,
        name,
        slug,
        agent,
        rating,
        acs,
        kills,
        deaths,
        assists,
        kd_diff,
        kast,
        adr,
        hs_pct,
        first_kills,
        first_deaths,
        fk_diff,
    }
}

/// Parse one player stat row of a game table: read the name column,
/// the link, the agent and the stat cells, and hand the values to
/// [`build_game_player`]. Fails only when the structurally required
/// name column is missing.
fn parse_game_player(doc: &scraper::Html, row: ego_tree::NodeId) -> Result<
    MatchGamePlayer,
    VlrError,
> {
    let name_col_sel = compile("td.mod-player")?;
    let found = dom::select_within(doc, row, &name_col_sel);
    if found.len() == 0 {
        return Err(VlrError::ElementNotFound(String::from_str("td.mod-player")));
    }
    let name_column = found[0];

    let nation_sel = compile("i.flag")?;
    let nation = {
        let flags = dom::select_within(doc, name_column, &nation_sel);
        if flags.len() == 0 {
            String::new()
        } else {
            match dom::node_attr(doc, flags[0], "title") {
                Some(t) => {
                    let c = str_chars(t.as_str());
                    let tr = trim_chars(&c);
                    chars_to_string(&tr)
                },
                None => String::new(),
            }
        }
    };

    let a_sel = compile("a")?;
    let href = {
        let links = dom::select_within(doc, name_column, &a_sel);
        if links.len() == 0 {
            String::new()
        } else {
            match dom::node_attr(doc, links[0], "href") {
                Some(h) => h,
                None => String::new(),
            }
        }
    };
    let name_sel = compile("a div:first-child")?;
    let name = dom::select_text(doc, name_column, &name_sel);

    let agent_sel = compile("td.mod-agents div span img")?;
    let agent = {
        let agents = dom::select_within(doc, row, &agent_sel);
        let mut value = String::new();
        let mut i: usize = 0;
        let mut found_any = false;
        while i < agents.len()
            decreases agents@.len() - i,
        {
            if !found_any {
                match dom::node_attr(doc, agents[i], "title") {
                    Some(t) => {
                        value = t;
                        found_any = true;
                    },
                    None => {},
                }
            }
            i = i + 1;
        }
        value
    };

    let stat_sel = compile("td.mod-stat")?;
    let both_sel = compile("span.side.mod-both")?;
    let stat_cells = dom::select_within(doc, row, &stat_sel);
    let mut cells: Vec<Option<String>> = Vec::new();
    let mut ci: usize = 0;
    while ci < 12
        invariant
            ci <= 12,
            cells@.len() == ci,
        decreases 12 - ci,
    {
        cells.push(stat_both(doc, &stat_cells, ci, &both_sel));
        ci = ci + 1;
    }

    Ok(build_game_player(nation, href.as_str(), name, agent, &cells))
}

/// The team a picked-map marker selects: the first team on the `mod-1`
/// class token, the second on `mod-2` (checked in that order), nothing
/// on any other tokens or when the team list runs short.
pub fn picked_team(classes: &Vec<String>, team_ids: &Vec<u32>) -> (r: Option<u32>)
    ensures
        r == (if classes.deep_view().contains("mod-1"@) {
            if team_ids@.len() > 0 {
                Some(team_ids@[0])
            } else {
                None::<u32>
            }
        } else if classes.deep_view().contains("mod-2"@) {
            if team_ids@.len() > 1 {
                Some(team_ids@[1])
            } else {
                None::<u32>
            }
        } else {
            None::<u32>
        }),
{
    if crate::text::list_has_str(classes, "mod-1") {
        if team_ids.len() > 0 {
            Some(team_ids[0])
        } else {
            None
        }
    } else if crate::text::list_has_str(classes, "mod-2") {
        if team_ids.len() > 1 {
            Some(team_ids[1])
        } else {
            None
        }
    } else {
        None
    }
}

/// Parse one team block of a game's header, paired with its players.
fn parse_game_team(
    doc: &scraper::Html,
    node: Option<ego_tree::NodeId>,
    players: Vec<MatchGamePlayer>,
) -> Result<MatchGameTeam, VlrError> {
    let name_sel = compile("div.team-name")?;
    let score_sel = compile("div.score")?;
    let score_t_sel = compile("span.mod-t")?;
    let score_ct_sel = compile("span.mod-ct")?;
    match node {
        Some(node) => {
            let name = dom::select_text(doc, node, &name_sel);
            let score_text = dom::select_text(doc, node, &score_sel);
            let score_chars = str_chars(score_text.as_str());
            let score = parse_u8_opt(&score_chars);
            let st_text = dom::select_text(doc, node, &score_t_sel);
            let st_chars = str_chars(st_text.as_str());
            let score_t = parse_u8_opt(&st_chars);
            let sct_text = dom::select_text(doc, node, &score_ct_sel);
            let sct_chars = str_chars(sct_text.as_str());
            let score_ct = parse_u8_opt(&sct_chars);
            let score_nodes = dom::select_within(doc, node, &score_sel);
            let is_winner = if score_nodes.len() > 0 {
                let classes = dom::node_classes(doc, score_nodes[0]);
                crate::text::list_has_str(&classes, "mod-win")
            } else {
                false
            };
            Ok(MatchGameTeam { name, score, score_t, score_ct, is_winner, players })
        },
        None => Ok(
            MatchGameTeam {
                name: String::new(),
                score: None,
                score_t: None,
                score_ct: None,
                is_winner: false,
                players,
            },
        ),
    }
}

/// Parse one map's game section.
///
/// The game's team list is empty when the page shows no team blocks and
/// has exactly two entries otherwise; every round outcome's winning
/// team id is one of the given header team ids.
pub fn parse_game(
    doc: &scraper::Html,
    node: ego_tree::NodeId,
    team_ids: &Vec<u32>,
) -> (r: Result<MatchGame, VlrError>)
    ensures
        r matches Ok(g) ==> {
            &&& g.teams@.len() == 0 || g.teams@.len() == 2
            &&& forall|j: int| 0 <= j < g.rounds@.len() ==> team_ids@.contains(
                (#[trigger] g.rounds@[j]).winning_team,
            )
        },
{
    let map_sel = compile("div.vm-stats-game-header div.map div:first-child span")?;
    let map = dom::select_text(doc, node, &map_sel);

    let picked_sel = compile("div.vm-stats-game-header div.map span.picked")?;
    let picked_by = {
        let picked = dom::select_within(doc, node, &picked_sel);
        if picked.len() == 0 {
            None
        } else {
            let classes = dom::node_classes(doc, picked[0]);
            picked_team(&classes, team_ids)
        }
    };

    let duration_sel = compile("div.vm-stats-game-header div.map-duration")?;
    let duration = {
        let text = dom::select_text(doc, node, &duration_sel);
        if text.as_str().is_empty() {
            None
        } else {
            Some(text)
        }
    };

    let rounds_sel = compile("div.vlr-rounds div.vlr-rounds-row-col:not(:first-child,.mod-spacing)")?;
    let num_sel = compile("div.rnd-num")?;
    let sq_sel = compile("div.rnd-sq")?;
    let round_nodes = dom::select_within(doc, node, &rounds_sel);
    let mut raw_rounds: Vec<RawRound> = Vec::new();
    let mut i: usize = 0;
    while i < round_nodes.len()
        decreases round_nodes@.len() - i,
    {
        let rn = round_nodes[i];
        let num_text = dom::select_text(doc, rn, &num_sel);
        let squares_nodes = dom::select_within(doc, rn, &sq_sel);
        let mut squares: Vec<RoundSquare> = Vec::new();
        let mut k: usize = 0;
        while k < squares_nodes.len()
            decreases squares_nodes@.len() - k,
        {
            let raw_classes = dom::node_classes(doc, squares_nodes[k]);
            let mut classes: Vec<String> = Vec::new();
            let mut c: usize = 0;
            while c < raw_classes.len()
                decreases raw_classes@.len() - c,
            {
                let cc = str_chars(raw_classes[c].as_str());
                let tc = trim_chars(&cc);
                classes.push(chars_to_string(&tc));
                c = c + 1;
            }
            squares.push(RoundSquare { classes });
            k = k + 1;
        }
        raw_rounds.push(RawRound { num_text, squares });
        i = i + 1;
    }
    let rounds = assemble_rounds(&raw_rounds, team_ids);

    let players1_sel = compile(
        "div.vm-stats-container div div:first-child table tbody tr:has(td.mod-player)",
    )?;
    let players2_sel = compile(
        "div.vm-stats-container div div:last-child table tbody tr:has(td.mod-player)",
    )?;
    let mut players1: Vec<MatchGamePlayer> = Vec::new();
    let rows1 = dom::select_within(doc, node, &players1_sel);
    let mut i1: usize = 0;
    while i1 < rows1.len()
        decreases rows1@.len() - i1,
    {
        let p = parse_game_player(doc, rows1[i1])?;
        players1.push(p);
        i1 = i1 + 1;
    }
    let mut players2: Vec<MatchGamePlayer> = Vec::new();
    let rows2 = dom::select_within(doc, node, &players2_sel);
    let mut i2: usize = 0;
    while i2 < rows2.len()
        decreases rows2@.len() - i2,
    {
        let p = parse_game_player(doc, rows2[i2])?;
        players2.push(p);
        i2 = i2 + 1;
    }

    let team_sel = compile("div.vm-stats-game-header div.team")?;
    let team_nodes = dom::select_within(doc, node, &team_sel);
    let mut teams: Vec<MatchGameTeam> = Vec::new();
    if team_nodes.len() > 0 {
        let first = Some(team_nodes[0]);
        let second: Option<ego_tree::NodeId> = if team_nodes.len() > 1 {
            Some(team_nodes[1])
        } else {
            None
        };
        let t0 = parse_game_team(doc, first, players1)?;
        let t1 = parse_game_team(doc, second, players2)?;
        teams.push(t0);
        teams.push(t1);
    }

    Ok(MatchGame { map, picked_by, duration, teams, rounds })
}


/// Assemble the match header from its extracted values. The only
/// failure is the structurally required timestamp: the parse errs
/// exactly when the machine timestamp fails the header date format.
/// On success the icon is the normalized source (empty when absent),
/// the patch drops its `"Patch "` prefix when it carries one, the
/// event id and slug come from the event link path, and the two teams
/// are the bounded positional zip of the four team sequences.
pub fn build_header(
    icon_src: &Option<String>,
    event_title: String,
    event_series_name: String,
    ts: &str,
    patch_raw: &str,
    status: String,
    format: String,
    event_href: &str,
    note: String,
    links: &Vec<String>,
    names: &Vec<String>,
    score_texts: &Vec<String>,
    icons: &Vec<String>,
) -> (r: Result<MatchHeader, VlrError>)
    ensures
        match r {
            Ok(h) => {
                &&& ({
                    let d = crate::dates::datetime_from_text(ts@, "%Y-%m-%d %H:%M:%S"@);
                    d matches Some(t) && h.date.date.year == t.0 && h.date.date.month == t.1
                        && h.date.date.day == t.2 && h.date.time.hour == t.3
                        && h.date.time.minute == t.4 && h.date.time.second == t.5
                })
                &&& match icon_src {
                    Some(src) => h.event_icon@ == crate::utils::normalized_url(src@),
                    None => h.event_icon@.len() == 0,
                }
                &&& h.event_title == event_title
                &&& h.event_series_name == event_series_name
                &&& h.patch@ == (if crate::text::starts_with(patch_raw@, "Patch "@) {
                    patch_raw@.subrange("Patch "@.len() as int, patch_raw@.len() as int)
                } else {
                    patch_raw@
                })
                &&& h.status == status
                &&& h.format == format
                &&& h.note == note
                &&& h.event_id == crate::numbers::u32_or_zero(
                    crate::match_detail::event_ref_parts(event_href@).0,
                )
                &&& h.event_slug@ == crate::match_detail::event_ref_parts(event_href@).1
                &&& h.teams@.len() == 2
                &&& crate::match_detail::header_team_matches(
                    h.teams@[0],
                    links.deep_view(),
                    names.deep_view(),
                    score_texts.deep_view(),
                    icons.deep_view(),
                    0,
                )
                &&& crate::match_detail::header_team_matches(
                    h.teams@[1],
                    links.deep_view(),
                    names.deep_view(),
                    score_texts.deep_view(),
                    icons.deep_view(),
                    1,
                )
            },
            Err(_) => crate::dates::datetime_from_text(ts@, "%Y-%m-%d %H:%M:%S"@) is None,
        },
{
    let date = match parse_datetime(ts, "%Y-%m-%d %H:%M:%S") {
        Some(dt) => dt,
        None => {
            return Err(VlrError::DateParse(String::from_str(ts)));
        },
    };
    let event_icon = match icon_src {
        Some(src) => normalize_img_url(src.as_str()),
        None => String::new(),
    };
    let patch_chars = str_chars(patch_raw);
    let patch = match crate::text::chars_strip_prefix(&patch_chars, "Patch ") {
        Some(rest) => chars_to_string(&rest),
        None => String::from_str(patch_raw),
    };
    let (event_id, event_slug) = crate::match_detail::parse_event_ref(event_href);
    let teams = zip_header_teams(links, names, score_texts, icons);
    Ok(
        MatchHeader {
            event_icon,
            event_title,
            event_series_name,
            event_id,
            event_slug,
            date,
            patch,
            format,
            status,
            note,
            teams,
        },
    )
}

/// Parse the match header: read the required icon and timestamp
/// elements and every header text, and hand the values to
/// [`build_header`], which carries the value laws.
pub fn parse_header(doc: &scraper::Html, node: ego_tree::NodeId) -> (r: Result<
    MatchHeader,
    VlrError,
>)
    ensures
        r matches Ok(h) ==> h.teams@.len() == 2,
{
    let icon_sel = compile("div.match-header-super a.match-header-event img")?;
    let icon_nodes = dom::select_within(doc, node, &icon_sel);
    if icon_nodes.len() == 0 {
        return Err(VlrError::ElementNotFound(String::from_str("match-header-event img")));
    }
    let icon_src = dom::node_attr(doc, icon_nodes[0], "src");

    let title_sel = compile("div.match-header-super a.match-header-event div div:first-child")?;
    let event_title = dom::select_text(doc, node, &title_sel);

    let series_sel = compile(
        "div.match-header-super a.match-header-event div div.match-header-event-series",
    )?;
    let event_series_name = dom::select_text(doc, node, &series_sel);

    let date_sel = compile("div.match-header-super div.match-header-date div.moment-tz-convert")?;
    let date_nodes = dom::select_within(doc, node, &date_sel);
    if date_nodes.len() == 0 {
        return Err(VlrError::ElementNotFound(String::from_str("moment-tz-convert")));
    }
    let ts = match dom::node_attr(doc, date_nodes[0], "data-utc-ts") {
        Some(t) => t,
        None => String::new(),
    };

    let patch_sel = compile("div.match-header-super div.match-header-date > div:nth-child(3)")?;
    let patch_raw = dom::select_text(doc, node, &patch_sel);

    let note_sel = compile(
        "div.match-header-super div.match-header-date *:not(.moment-tz-convert)",
    )?;
    let note = dom::select_text(doc, node, &note_sel);

    let vs_note_sel = compile("div.match-header-vs-note")?;
    let vs_nodes = dom::select_within(doc, node, &vs_note_sel);
    let status = if vs_nodes.len() > 0 {
        let texts = dom::node_texts(doc, vs_nodes[0]);
        dom::first_text_of(&texts)
    } else {
        String::new()
    };
    let format = if vs_nodes.len() > 1 {
        let texts = dom::node_texts(doc, vs_nodes[1]);
        dom::first_text_of(&texts)
    } else {
        String::new()
    };

    let event_link_sel = compile("div.match-header-super a.match-header-event")?;
    let event_href = {
        let links = dom::select_within(doc, node, &event_link_sel);
        if links.len() == 0 {
            String::new()
        } else {
            match dom::node_attr(doc, links[0], "href") {
                Some(h) => h,
                None => String::new(),
            }
        }
    };

    let team_links_sel = compile("div.match-header-vs a.match-header-link")?;
    let link_nodes = dom::select_within(doc, node, &team_links_sel);
    let mut links: Vec<String> = Vec::new();
    let mut i: usize = 0;
    while i < link_nodes.len()
        decreases link_nodes@.len() - i,
    {
        match dom::node_attr(doc, link_nodes[i], "href") {
            Some(h) => links.push(h),
            None => {},
        }
        i = i + 1;
    }

    let team_icons_sel = compile("div.match-header-vs a.match-header-link img")?;
    let icon_nodes2 = dom::select_within(doc, node, &team_icons_sel);
    let mut icons: Vec<String> = Vec::new();
    let mut i2: usize = 0;
    while i2 < icon_nodes2.len()
        decreases icon_nodes2@.len() - i2,
    {
        let icon = match dom::node_attr(doc, icon_nodes2[i2], "src") {
            Some(src) => normalize_img_url(src.as_str()),
            None => String::new(),
        };
        icons.push(icon);
        i2 = i2 + 1;
    }

    let team_names_sel = compile("div.match-header-vs a.match-header-link div.wf-title-med")?;
    let name_nodes = dom::select_within(doc, node, &team_names_sel);
    let mut names: Vec<String> = Vec::new();
    let mut i3: usize = 0;
    while i3 < name_nodes.len()
        decreases name_nodes@.len() - i3,
    {
        let texts = dom::node_texts(doc, name_nodes[i3]);
        names.push(dom::first_text_of(&texts));
        i3 = i3 + 1;
    }

    let scores_sel = compile(
        "div.match-header-vs div.match-header-vs-score div.match-header-vs-score span:not(.match-header-vs-score-colon)",
    )?;
    let score_nodes = dom::select_within(doc, node, &scores_sel);
    let mut score_texts: Vec<String> = Vec::new();
    let mut i4: usize = 0;
    while i4 < score_nodes.len()
        decreases score_nodes@.len() - i4,
    {
        let texts = dom::node_texts(doc, score_nodes[i4]);
        score_texts.push(dom::first_text_of(&texts));
        i4 = i4 + 1;
    }

    build_header(
        &icon_src,
        event_title,
        event_series_name,
        ts.as_str(),
        patch_raw.as_str(),
        status,
        format,
        event_href.as_str(),
        note,
        &links,
        &names,
        &score_texts,
        &icons,
    )
}

fn parse_streams(doc: &scraper::Html, node: ego_tree::NodeId) -> Result<Vec<MatchStream>, VlrError> {
    let container_sel = compile(
        "div.match-streams div.match-streams-container div.match-streams-btn",
    )?;
    let name_sel = compile("div.match-streams-btn-embed span")?;
    let link_sel = compile("a.match-streams-btn-external")?;
    let nodes = dom::select_within(doc, node, &container_sel);
    let mut streams: Vec<MatchStream> = Vec::new();
    let mut i: usize = 0;
    while i < nodes.len()
        decreases nodes@.len() - i,
    {
        let name = dom::select_text(doc, nodes[i], &name_sel);
        let link = dom::select_attr(doc, nodes[i], &link_sel, "href");
        streams.push(MatchStream { name, link });
        i = i + 1;
    }
    Ok(streams)
}

fn parse_vods(doc: &scraper::Html, node: ego_tree::NodeId) -> Result<Vec<MatchStream>, VlrError> {
    let vods_sel = compile("div.match-vods div.match-streams-container a")?;
    let nodes = dom::select_within(doc, node, &vods_sel);
    let mut vods: Vec<MatchStream> = Vec::new();
    let mut i: usize = 0;
    while i < nodes.len()
        decreases nodes@.len() - i,
    {
        let texts = dom::node_texts(doc, nodes[i]);
        let name = dom::first_text_of(&texts);
        let link = match dom::node_attr(doc, nodes[i], "href") {
            Some(h) => h,
            None => String::new(),
        };
        vods.push(MatchStream { name, link });
        i = i + 1;
    }
    Ok(vods)
}

/// Parse the head-to-head section. Entries are best-effort: one whose
/// id or scores cannot be read is skipped silently, never reported.
/// Every kept entry's winner index is 0 (the win-marked score cell) or
/// 1.
pub fn parse_head_to_head(doc: &scraper::Html, node: ego_tree::NodeId) -> (r: Result<
    Vec<HeadToHeadMatch>,
    VlrError,
>)
    ensures
        r matches Ok(entries) ==> forall|i: int|
            0 <= i < entries@.len() ==> (#[trigger] entries@[i]).winner_index == 0
                || entries@[i].winner_index == 1,
{
    let item_sel = compile("div.match-h2h a.wf-module-item.mod-h2h")?;
    let event_icon_sel = compile("div.match-h2h-matches-event img")?;
    let event_name_sel = compile("div.match-h2h-matches-event-name")?;
    let event_series_sel = compile("div.match-h2h-matches-event-series")?;
    let rf_sel = compile("span.rf")?;
    let ra_sel = compile("span.ra")?;
    let date_sel = compile("div.match-h2h-matches-date")?;

    let items = dom::select_within(doc, node, &item_sel);
    let mut out: Vec<HeadToHeadMatch> = Vec::new();
    let mut i: usize = 0;
    while i < items.len()
        invariant
            forall|j: int|
                0 <= j < out@.len() ==> (#[trigger] out@[j]).winner_index == 0
                    || out@[j].winner_index == 1,
        decreases items@.len() - i,
    {
        let item = items[i];
        let href = match dom::node_attr(doc, item, "href") {
            Some(h) => h,
            None => String::new(),
        };
        let id_opt = crate::match_detail::parse_history_key(href.as_str());

        let rf_nodes = dom::select_within(doc, item, &rf_sel);
        let ra_nodes = dom::select_within(doc, item, &ra_sel);
        if rf_nodes.len() > 0 && ra_nodes.len() > 0 {
            let rf_texts = dom::node_texts(doc, rf_nodes[0]);
            let rf_text = dom::first_text_of(&rf_texts);
            let rf_chars = str_chars(rf_text.as_str());
            let team1_score = parse_u8_opt(&rf_chars);
            let ra_texts = dom::node_texts(doc, ra_nodes[0]);
            let ra_text = dom::first_text_of(&ra_texts);
            let ra_chars = str_chars(ra_text.as_str());
            let team2_score = parse_u8_opt(&ra_chars);
            match (id_opt, team1_score, team2_score) {
                (Some((match_id, match_slug)), Some(s1), Some(s2)) => {
                    let rf_classes = dom::node_classes(doc, rf_nodes[0]);
                    let winner_index: u8 = if crate::text::list_has_str(&rf_classes, "mod-win") {
                        0
                    } else {
                        1
                    };
                    let event_icon = match dom::select_attr_opt(doc, item, &event_icon_sel, "src") {
                        Some(src) => normalize_img_url(src.as_str()),
                        None => String::new(),
                    };
                    let event_name = dom::select_text(doc, item, &event_name_sel);
                    let event_series = dom::select_text(doc, item, &event_series_sel);
                    let date = dom::select_text(doc, item, &date_sel);
                    out.push(
                        HeadToHeadMatch {
                            match_id,
                            match_slug,
                            event_name,
                            event_series,
                            event_icon,
                            team1_score: s1,
                            team2_score: s2,
                            winner_index,
                            date,
                        },
                    );
                },
                _ => {},
            }
        }
        i = i + 1;
    }
    Ok(out)
}

/// Parse the recent-form cards, one per header team in order: the i-th
/// card carries the i-th given team id, and 0 where the cards outrun
/// the team list. Entries missing an id or a score are skipped
/// silently.
pub fn parse_past_matches(
    doc: &scraper::Html,
    node: ego_tree::NodeId,
    team_ids: &Vec<u32>,
) -> (r: Result<Vec<TeamPastMatches>, VlrError>)
    ensures
        r matches Ok(cards) ==> forall|i: int|
            0 <= i < cards@.len() ==> (#[trigger] cards@[i]).team_id == (if i < team_ids@.len() {
                team_ids@[i]
            } else {
                0u32
            }),
{
    let card_sel = compile("div.match-histories")?;
    let item_sel = compile("a.match-histories-item")?;
    let rf_sel = compile("span.rf")?;
    let ra_sel = compile("span.ra")?;
    let opp_name_sel = compile("span.match-histories-item-opponent-name")?;
    let opp_logo_sel = compile("img.match-histories-item-opponent-logo")?;
    let date_sel = compile("div.match-histories-item-date")?;

    let cards = dom::select_within(doc, node, &card_sel);
    let mut out: Vec<TeamPastMatches> = Vec::new();
    let mut i: usize = 0;
    while i < cards.len()
        invariant
            out@.len() == i,
            forall|j: int|
                0 <= j < out@.len() ==> (#[trigger] out@[j]).team_id == (if j < team_ids@.len() {
                    team_ids@[j]
                } else {
                    0u32
                }),
        decreases cards@.len() - i,
    {
        let team_id = if i < team_ids.len() {
            team_ids[i]
        } else {
            0
        };
        let items = dom::select_within(doc, cards[i], &item_sel);
        let mut matches: Vec<PastMatch> = Vec::new();
        let mut k: usize = 0;
        while k < items.len()
            decreases items@.len() - k,
        {
            let item = items[k];
            let href = match dom::node_attr(doc, item, "href") {
                Some(h) => h,
                None => String::new(),
            };
            let key = crate::match_detail::parse_history_key(href.as_str());
            let rf_nodes = dom::select_within(doc, item, &rf_sel);
            let ra_nodes = dom::select_within(doc, item, &ra_sel);
            if rf_nodes.len() > 0 && ra_nodes.len() > 0 {
                let rf_texts = dom::node_texts(doc, rf_nodes[0]);
                let rf_text = dom::first_text_of(&rf_texts);
                let rf_chars = str_chars(rf_text.as_str());
                let score_for = parse_u8_opt(&rf_chars);
                let ra_texts = dom::node_texts(doc, ra_nodes[0]);
                let ra_text = dom::first_text_of(&ra_texts);
                let ra_chars = str_chars(ra_text.as_str());
                let score_against = parse_u8_opt(&ra_chars);
                match (key, score_for, score_against) {
                    (Some(pair), Some(sf), Some(sa)) => {
                        let item_classes = dom::node_classes(doc, item);
                        let is_win = crate::text::list_has_str(&item_classes, "mod-win");
                        let opponent_name = dom::select_text(doc, item, &opp_name_sel);
                        let opponent_logo = match dom::select_attr_opt(doc, item, &opp_logo_sel, "src") {
                            Some(src) => normalize_img_url(src.as_str()),
                            None => String::new(),
                        };
                        let date = dom::select_text(doc, item, &date_sel);
                        matches.push(
                            PastMatch {
                                match_id: pair.0,
                                match_slug: pair.1,
                                score_for: sf,
                                score_against: sa,
                                is_win,
                                opponent_name,
                                opponent_logo,
                                date,
                            },
                        );
                    },
                    _ => {},
                }
            }
            k = k + 1;
        }
        out.push(TeamPastMatches { team_id, matches });
        i = i + 1;
    }
    Ok(out)
}

fn stats_square_texts(
    doc: &scraper::Html,
    cell: ego_tree::NodeId,
    sq_sel: &scraper::Selector,
) -> Vec<String> {
    let squares = dom::select_within(doc, cell, sq_sel);
    let mut texts: Vec<String> = Vec::new();
    let mut i: usize = 0;
    while i < squares.len()
        decreases squares@.len() - i,
    {
        let t = dom::node_texts(doc, squares[i]);
        texts.push(dom::first_text_of(&t));
        i = i + 1;
    }
    texts
}

fn cell_first_text(doc: &scraper::Html, cell: ego_tree::NodeId) -> String {
    let texts = dom::node_texts(doc, cell);
    dom::first_text_of(&texts)
}

/// Parse the performance tab: the kill matrix and the advanced stats
/// table of the aggregated section, with players resolved by name
/// against the given games. Every killer, victim and player id in the
/// result is an id the games' name→id lookup maps some display name
/// to, or the defined unknown sentinel 0 — an unresolved name degrades
/// to 0, never to an error.
pub fn parse_performance(
    doc: &scraper::Html,
    node: ego_tree::NodeId,
    games: &Vec<MatchGame>,
) -> (r: Result<MatchPerformance, VlrError>)
    ensures
        r matches Ok(p) ==> {
            &&& forall|i: int|
                0 <= i < p.kill_matrix@.len() ==> id_resolved(
                    games@,
                    (#[trigger] p.kill_matrix@[i]).killer_id,
                ) && id_resolved(games@, p.kill_matrix@[i].victim_id)
            &&& forall|i: int|
                0 <= i < p.player_performances@.len() ==> id_resolved(
                    games@,
                    (#[trigger] p.player_performances@[i]).player_id,
                )
        },
{
    let name_map = build_player_name_map(games);

    let all_game_sel = compile("div.vm-stats div.vm-stats-game[data-game-id='all']")?;
    let all_games = dom::select_within(doc, node, &all_game_sel);
    if all_games.len() == 0 {
        return Err(VlrError::ElementNotFound(String::from_str("performance all-game section")));
    }
    let all_game = all_games[0];

    let matrix_sel = compile("table.mod-normal")?;
    let matrix_tables = dom::select_within(doc, all_game, &matrix_sel);
    if matrix_tables.len() == 0 {
        return Err(VlrError::ElementNotFound(String::from_str("table.mod-normal")));
    }
    let row_sel = compile("tbody tr")?;
    let cell_sel = compile("td")?;
    let sq_sel = compile("div.stats-sq")?;
    let team_div_sel = compile("div.team > div")?;

    let rows = dom::select_within(doc, matrix_tables[0], &row_sel);

    let mut victim_ids: Vec<u32> = Vec::new();
    if rows.len() > 0 {
        let header_cells = dom::select_within(doc, rows[0], &cell_sel);
        let mut c: usize = 1;
        while c < header_cells.len()
            invariant
                assoc_map(name_map@) == name_map_of(all_players(games@)),
                forall|j: int| 0 <= j < victim_ids@.len() ==> id_resolved(
                    games@,
                    #[trigger] victim_ids@[j],
                ),
            decreases header_cells@.len() - c,
        {
            let name = dom::select_text(doc, header_cells[c], &team_div_sel);
            let vid = name_map_get(&name_map, name.as_str());
            proof {
                lemma_lookup_resolved(name_map@, games@, name@, vid);
            }
            victim_ids.push(vid);
            c = c + 1;
        }
    }

    let mut kill_matrix: Vec<KillMatrixEntry> = Vec::new();
    let mut ri: usize = 1;
    while ri < rows.len()
        invariant
            assoc_map(name_map@) == name_map_of(all_players(games@)),
            forall|j: int| 0 <= j < victim_ids@.len() ==> id_resolved(
                games@,
                #[trigger] victim_ids@[j],
            ),
            forall|j: int|
                0 <= j < kill_matrix@.len() ==> id_resolved(
                    games@,
                    (#[trigger] kill_matrix@[j]).killer_id,
                ) && id_resolved(games@, kill_matrix@[j].victim_id),
        decreases rows@.len() - ri,
    {
        let cells = dom::select_within(doc, rows[ri], &cell_sel);
        if cells.len() > 0 {
            let killer_name = dom::select_text(doc, cells[0], &team_div_sel);
            let killer_id = name_map_get(&name_map, killer_name.as_str());
            proof {
                lemma_lookup_resolved(name_map@, games@, killer_name@, killer_id);
            }
            let mut kill_cells: Vec<KillCell> = Vec::new();
            let mut c: usize = 1;
            while c < cells.len()
                decreases cells@.len() - c,
            {
                kill_cells.push(KillCell { square_texts: stats_square_texts(doc, cells[c], &sq_sel) });
                c = c + 1;
            }
            let row_entries = build_kill_row(killer_id, &victim_ids, &kill_cells);
            let mut e: usize = 0;
            while e < row_entries.len()
                invariant
                    id_resolved(games@, killer_id),
                    forall|j: int| 0 <= j < victim_ids@.len() ==> id_resolved(
                        games@,
                        #[trigger] victim_ids@[j],
                    ),
                    forall|j: int|
                        0 <= j < row_entries@.len() ==> {
                            &&& (#[trigger] row_entries@[j]).killer_id == killer_id
                            &&& row_entries@[j].victim_id == (if j < victim_ids@.len() {
                                victim_ids@[j]
                            } else {
                                0u32
                            })
                        },
                    forall|j: int|
                        0 <= j < kill_matrix@.len() ==> id_resolved(
                            games@,
                            (#[trigger] kill_matrix@[j]).killer_id,
                        ) && id_resolved(games@, kill_matrix@[j].victim_id),
                decreases row_entries@.len() - e,
            {
                kill_matrix.push(row_entries[e]);
                e = e + 1;
            }
        }
        ri = ri + 1;
    }

    let adv_sel = compile("table.mod-adv-stats")?;
    let adv_tables = dom::select_within(doc, all_game, &adv_sel);
    if adv_tables.len() == 0 {
        return Err(VlrError::ElementNotFound(String::from_str("table.mod-adv-stats")));
    }
    let adv_rows = dom::select_within(doc, adv_tables[0], &row_sel);
    let mut player_performances: Vec<PlayerPerformance> = Vec::new();
    let mut ai: usize = 0;
    while ai < adv_rows.len()
        invariant
            assoc_map(name_map@) == name_map_of(all_players(games@)),
            forall|j: int|
                0 <= j < player_performances@.len() ==> id_resolved(
                    games@,
                    (#[trigger] player_performances@[j]).player_id,
                ),
        decreases adv_rows@.len() - ai,
    {
        let cells = dom::select_within(doc, adv_rows[ai], &cell_sel);
        if cells.len() >= 14 {
            let player_name = dom::select_text(doc, cells[0], &team_div_sel);
            if !player_name.as_str().is_empty() {
                let player_id = name_map_get(&name_map, player_name.as_str());
                proof {
                    lemma_lookup_resolved(name_map@, games@, player_name@, player_id);
                }
                let mut numeric: Vec<String> = Vec::new();
                let mut c: usize = 2;
                while c < 14
                    invariant
                        2 <= c <= 14,
                        numeric@.len() == c - 2,
                        cells@.len() >= 14,
                    decreases 14 - c,
                {
                    numeric.push(cell_first_text(doc, cells[c]));
                    c = c + 1;
                }
                player_performances.push(
                    build_player_performance(player_id, player_name, &numeric),
                );
            }
        }
        ai = ai + 1;
    }

    Ok(MatchPerformance { kill_matrix, player_performances })
}

/// Parse the economy tab: one breakdown per team row of the aggregated
/// economy table; rows with fewer than six cells or no team name are
/// skipped, so every returned team carries a non-empty name.
pub fn parse_economy(doc: &scraper::Html, node: ego_tree::NodeId) -> (r: Result<
    MatchEconomy,
    VlrError,
>)
    ensures
        r matches Ok(e) ==> forall|i: int|
            0 <= i < e.teams@.len() ==> (#[trigger] e.teams@[i]).team_name@.len() > 0,
{
    let all_game_sel = compile("div.vm-stats div.vm-stats-game[data-game-id='all']")?;
    let all_games = dom::select_within(doc, node, &all_game_sel);
    if all_games.len() == 0 {
        return Err(VlrError::ElementNotFound(String::from_str("economy all-game section")));
    }
    let table_sel = compile("table.mod-econ")?;
    let tables = dom::select_within(doc, all_games[0], &table_sel);
    if tables.len() == 0 {
        return Err(VlrError::ElementNotFound(String::from_str("table.mod-econ")));
    }
    let row_sel = compile("tbody tr")?;
    let cell_sel = compile("td")?;
    let sq_sel = compile("div.stats-sq")?;

    let rows = dom::select_within(doc, tables[0], &row_sel);
    let mut teams: Vec<TeamEconomy> = Vec::new();
    let mut i: usize = 0;
    while i < rows.len()
        invariant
            forall|j: int|
                0 <= j < teams@.len() ==> (#[trigger] teams@[j]).team_name@.len() > 0,
        decreases rows@.len() - i,
    {
        let cells = dom::select_within(doc, rows[i], &cell_sel);
        if cells.len() >= 6 {
            let name_texts = dom::node_texts(doc, cells[0]);
            let team_name = dom::all_text_of(&name_texts);
            if !team_name.as_str().is_empty() {
                let row_cells = EconRowCells {
                    pistol_text: econ_sq_text(doc, cells[1], &sq_sel),
                    eco_text: econ_sq_text(doc, cells[2], &sq_sel),
                    semi_eco_text: econ_sq_text(doc, cells[3], &sq_sel),
                    semi_buy_text: econ_sq_text(doc, cells[4], &sq_sel),
                    full_buy_text: econ_sq_text(doc, cells[5], &sq_sel),
                };
                teams.push(build_team_economy(team_name, &row_cells));
            }
        }
        i = i + 1;
    }
    Ok(MatchEconomy { teams })
}

fn econ_sq_text(doc: &scraper::Html, cell: ego_tree::NodeId, sq_sel: &scraper::Selector) -> String {
    let squares = dom::select_within(doc, cell, sq_sel);
    if squares.len() == 0 {
        return String::new();
    }
    let texts = dom::node_texts(doc, squares[0]);
    dom::all_text_of(&texts)
}

/// Parse the main match page column into a match record without its
/// optional tabs.
///
/// On success the header holds exactly two teams, every game's team
/// list is empty or a pair, every round's winning team id is one of the
/// two header team ids, and the performance and economy sections are
/// left absent for the caller to fill in.
pub fn parse_match(id: u32, doc: &scraper::Html, column: ego_tree::NodeId) -> (r: Result<
    Match,
    VlrError,
>)
    ensures
        r matches Ok(m) ==> {
            &&& m.id == id
            &&& m.header.teams@.len() == 2
            &&& m.performance is None
            &&& m.economy is None
            &&& forall|g: int|
                0 <= g < m.games@.len() ==> ((#[trigger] m.games@[g]).teams@.len() == 0
                    || m.games@[g].teams@.len() == 2)
            &&& forall|g: int, j: int|
                0 <= g < m.games@.len() && 0 <= j < m.games@[g].rounds@.len()
                    ==> m.header.teams@[0].id == (#[trigger] m.games@[g].rounds@[j]).winning_team
                    || m.header.teams@[1].id == m.games@[g].rounds@[j].winning_team
        },
{
    let header_sel = compile("div.match-header")?;
    let header_nodes = dom::select_within(doc, column, &header_sel);
    if header_nodes.len() == 0 {
        return Err(VlrError::ElementNotFound(String::from_str("div.match-header")));
    }
    let header = parse_header(doc, header_nodes[0])?;

    let streams = parse_streams(doc, column)?;
    let vods = parse_vods(doc, column)?;

    let mut team_ids: Vec<u32> = Vec::new();
    team_ids.push(header.teams[0].id);
    team_ids.push(header.teams[1].id);

    let games_sel = compile(
        "div.vm-stats div.vm-stats-container div.vm-stats-game:not([data-game-id='all'])",
    )?;
    let game_nodes = dom::select_within(doc, column, &games_sel);
    let mut games: Vec<MatchGame> = Vec::new();
    let mut i: usize = 0;
    while i < game_nodes.len()
        invariant
            team_ids@.len() == 2,
            team_ids@[0] == header.teams@[0].id,
            team_ids@[1] == header.teams@[1].id,
            header.teams@.len() == 2,
            forall|g: int|
                0 <= g < games@.len() ==> ((#[trigger] games@[g]).teams@.len() == 0
                    || games@[g].teams@.len() == 2),
            forall|g: int, j: int|
                0 <= g < games@.len() && 0 <= j < games@[g].rounds@.len() ==> header.teams@[0].id
                    == (#[trigger] games@[g].rounds@[j]).winning_team || header.teams@[1].id
                    == games@[g].rounds@[j].winning_team,
        decreases game_nodes@.len() - i,
    {
        let game = parse_game(doc, game_nodes[i], &team_ids)?;
        proof {
            assert forall|j: int|
                0 <= j < game.rounds@.len() implies header.teams@[0].id
                == (#[trigger] game.rounds@[j]).winning_team || header.teams@[1].id
                == game.rounds@[j].winning_team by {
                assert(team_ids@.contains(game.rounds@[j].winning_team));
                let w = choose|w: int|
                    0 <= w < team_ids@.len() && team_ids@[w] == game.rounds@[j].winning_team;
            }
        }
        games.push(game);
        i = i + 1;
    }

    let head_to_head = parse_head_to_head(doc, column)?;
    let past_matches = parse_past_matches(doc, column, &team_ids)?;

    Ok(
        Match {
            id,
            header,
            streams,
            vods,
            games,
            head_to_head,
            past_matches,
            performance: None,
            economy: None,
        },
    )
}

/// Parse a full match detail from its main page and the optional
/// performance and economy tab documents.
///
/// The tab documents are best-effort: an absent or unusable tab leaves
/// its section absent, and never fails the overall parse. The main
/// page's structural guarantees carry over unchanged.
pub fn parse_match_detail(
    id: u32,
    main_doc: &scraper::Html,
    perf_doc: Option<&scraper::Html>,
    econ_doc: Option<&scraper::Html>,
) -> (r: Result<Match, VlrError>)
    ensures
        r matches Ok(m) ==> {
            &&& m.id == id
            &&& m.header.teams@.len() == 2
            &&& (perf_doc is None ==> m.performance is None)
            &&& (econ_doc is None ==> m.economy is None)
            &&& forall|g: int|
                0 <= g < m.games@.len() ==> ((#[trigger] m.games@[g]).teams@.len() == 0
                    || m.games@[g].teams@.len() == 2)
            &&& forall|g: int, j: int|
                0 <= g < m.games@.len() && 0 <= j < m.games@[g].rounds@.len()
                    ==> m.header.teams@[0].id == (#[trigger] m.games@[g].rounds@[j]).winning_team
                    || m.header.teams@[1].id == m.games@[g].rounds@[j].winning_team
        },
{
    let column_sel = compile("div.col.mod-3")?;
    let columns = dom::select_document(main_doc, &column_sel);
    if columns.len() == 0 {
        return Err(VlrError::ElementNotFound(String::from_str("div.col.mod-3")));
    }
    let mut result = parse_match(id, main_doc, columns[0])?;

    match perf_doc {
        Some(pd) => {
            let cols = dom::select_document(pd, &column_sel);
            if cols.len() > 0 {
                match parse_performance(pd, cols[0], &result.games) {
                    Ok(perf) => {
                        result.performance = Some(perf);
                    },
                    Err(_) => {},
                }
            }
        },
        None => {},
    }
    match econ_doc {
        Some(ed) => {
            let cols = dom::select_document(ed, &column_sel);
            if cols.len() > 0 {
                match parse_economy(ed, cols[0]) {
                    Ok(econ) => {
                        result.economy = Some(econ);
                    },
                    Err(_) => {},
                }
            }
        },
        None => {},
    }
    Ok(result)
}

} // verus!
