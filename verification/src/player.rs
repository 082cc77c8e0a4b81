//! The player profile parser: identity, team memberships, agent
//! statistics, news items, event placements and the player's match
//! history.
//!
//! Sections are located by finding a heading whose text contains a
//! known title and reading the next sibling container; a page without
//! the heading yields an empty section, never an error. A usage cell of
//! the literal shape `"(95) 20%"` splits at the parenthesis into an
//! integer count and a percentage divided by one hundred.

use vstd::prelude::*;
use vstd::string::*;

use crate::dates::DateTime;
use crate::dom;
use crate::error::VlrError;
use crate::match_item::{combine_start, parse_card_ref};
use crate::numbers::{
    decimal_mantissa, decimal_negative, decimal_scale, is_decimal_text, lenient_decimal_of,
    lenient_u32_of, parse_decimal, parse_lenient_decimal, parse_u32, parse_u8_opt, u32_or_zero,
    Decimal,
};
use crate::text::{
    chars_contain, chars_split_first, chars_to_string, first_index_of, join_texts,
    remove_substring, str_chars, trim_chars, trimmed, without_char, without_sub,
};
use crate::utils::{class_with_prefix, href_id_slug, infer_platform, nonempty_opt, normalize_img_url, split_id_slug};

verus! {

/// Complete player profile data from a player overview page.
#[derive(Debug, Clone)]
pub struct Player {
    pub info: PlayerInfo,
    pub current_teams: Vec<PlayerTeam>,
    pub past_teams: Vec<PlayerTeam>,
    pub agent_stats: Vec<PlayerAgentStats>,
    pub news: Vec<PlayerNewsItem>,
    pub event_placements: Vec<PlayerEventPlacement>,
    pub total_winnings: Option<String>,
}

/// Basic profile information for a player.
#[derive(Debug, Clone)]
pub struct PlayerInfo {
    pub id: u32,
    pub name: String,
    pub real_name: Option<String>,
    pub avatar_url: Option<String>,
    pub country: Option<String>,
    pub country_code: Option<String>,
    pub socials: Vec<PlayerSocial>,
}

/// A social media link from a player's profile.
#[derive(Debug, Clone)]
pub struct PlayerSocial {
    pub platform: String,
    pub url: String,
    pub display_text: String,
}

/// A team associated with a player (current or past).
#[derive(Debug, Clone)]
pub struct PlayerTeam {
    pub id: u32,
    pub slug: String,
    pub href: String,
    pub name: String,
    pub logo_url: String,
    pub info: Option<String>,
}

/// Agent usage and performance statistics for a player. Fractional
/// statistics are exact decimals; percentages carry the division by one
/// hundred in their scale.
#[derive(Debug, Clone)]
pub struct PlayerAgentStats {
    pub agent: String,
    pub usage_count: u32,
    pub usage_pct: Decimal,
    pub rounds: u32,
    pub rating: Decimal,
    pub acs: Decimal,
    pub kd: Decimal,
    pub adr: Decimal,
    pub kast: Decimal,
    pub kpr: Decimal,
    pub apr: Decimal,
    pub fkpr: Decimal,
    pub fdpr: Decimal,
    pub kills: u32,
    pub deaths: u32,
    pub assists: u32,
    pub first_kills: u32,
    pub first_deaths: u32,
}

/// Time window for agent statistics.
#[derive(Debug, Clone, Copy, Hash, Eq, PartialEq, Structural)]
pub enum AgentStatsTimespan {
    Days30,
    Days60,
    Days90,
    All,
}

/// The query value of each timespan.
pub open spec fn timespan_segment(t: AgentStatsTimespan) -> Seq<char> {
    match t {
        AgentStatsTimespan::Days30 => "30d"@,
        AgentStatsTimespan::Days60 => "60d"@,
        AgentStatsTimespan::Days90 => "90d"@,
        AgentStatsTimespan::All => "all"@,
    }
}

impl AgentStatsTimespan {
    /// The value this timespan takes in a profile URL query.
    pub fn url_segment(&self) -> (r: String)
        ensures
            r@ == timespan_segment(*self),
    {
        match self {
            AgentStatsTimespan::Days30 => String::from_str("30d"),
            AgentStatsTimespan::Days60 => String::from_str("60d"),
            AgentStatsTimespan::Days90 => String::from_str("90d"),
            AgentStatsTimespan::All => String::from_str("all"),
        }
    }
}

impl Default for AgentStatsTimespan {
    /// The profile page's default statistics window.
    fn default() -> (r: AgentStatsTimespan)
        ensures
            r == AgentStatsTimespan::Days90,
    {
        AgentStatsTimespan::Days90
    }
}

/// A news article mentioning the player.
#[derive(Debug, Clone)]
pub struct PlayerNewsItem {
    pub href: String,
    pub date: String,
    pub title: String,
}

/// A player's placement history at a single event.
#[derive(Debug, Clone)]
pub struct PlayerEventPlacement {
    pub event_id: u32,
    pub event_slug: String,
    pub event_href: String,
    pub event_name: String,
    pub placements: Vec<PlayerPlacementEntry>,
    pub year: String,
}

/// A single placement entry within an event (stage plus result).
#[derive(Debug, Clone)]
pub struct PlayerPlacementEntry {
    pub stage: String,
    pub placement: String,
    pub prize: Option<String>,
    pub team_name: String,
}

/// A single match entry in a player's match history.
#[derive(Debug, Clone)]
pub struct PlayerMatchListItem {
    pub id: u32,
    pub slug: String,
    pub league_icon: String,
    pub league_name: String,
    pub league_series_name: String,
    pub teams: Vec<PlayerMatchListTeam>,
    pub vods: Vec<String>,
    pub match_start: Option<DateTime>,
}

/// Team information as shown in a player's match history.
#[derive(Debug, Clone)]
pub struct PlayerMatchListTeam {
    pub name: String,
    pub tag: String,
    pub logo_url: String,
    pub score: Option<u8>,
}

/// The zero fallback every lenient numeric parse degrades to.
pub open spec fn zero_decimal() -> Decimal {
    Decimal { negative: false, mantissa: 0u64, scale: 0u32 }
}

/// The usage count of a cell like `"(95) 20%"`: the number between the
/// opening parenthesis and the first closing one, zero when the shape
/// or the number is off.
pub open spec fn usage_count_of(text: Seq<char>) -> int {
    let seg = text.subrange(0, first_index_of(text, ')'));
    if seg.len() > 0 && seg[0] == '(' {
        u32_or_zero(trimmed(seg.drop_first()))
    } else {
        0
    }
}

/// A parsed percentage agrees with its text: the decimal before the
/// percent sign with its scale raised by two, the zero fallback when
/// the shape or the number is off.
pub open spec fn pct_matches(d: Decimal, text: Seq<char>) -> bool {
    if text.len() > 0 && text.last() == '%' {
        let body = trimmed(text.drop_last());
        if is_decimal_text(body) {
            d.negative == decimal_negative(body) && d.mantissa == decimal_mantissa(body)
                && d.scale == decimal_scale(body) + 2
        } else {
            d == zero_decimal()
        }
    } else {
        d == zero_decimal()
    }
}

/// The usage percentage of a cell like `"(95) 20%"` agrees with the
/// trimmed segment after the first closing parenthesis.
pub open spec fn usage_pct_matches(d: Decimal, text: Seq<char>) -> bool {
    let k = first_index_of(text, ')');
    if k < text.len() {
        let rest = text.subrange(k + 1, text.len() as int);
        let seg = rest.subrange(0, first_index_of(rest, ')'));
        pct_matches(d, trimmed(seg))
    } else {
        d == zero_decimal()
    }
}

/// Parse a percentage like `"77%"` into an exact fraction: the decimal
/// with its scale raised by two; the zero value on any other shape.
pub fn parse_pct(text: &str) -> (r: Decimal)
    ensures
        pct_matches(r, text@),
{
    let chars = str_chars(text);
    match crate::text::chars_strip_suffix_char(&chars, '%') {
        Some(body) => {
            let t = trim_chars(&body);
            match parse_decimal(&t) {
                Some(d) => Decimal {
                    negative: d.negative,
                    mantissa: d.mantissa,
                    scale: d.scale + 2,
                },
                None => Decimal::zero(),
            }
        },
        None => Decimal::zero(),
    }
}

/// Parse a usage cell like `"(95) 20%"` into its count and fraction:
/// count 95 and the exact value of twenty percent; a missing piece
/// degrades to zero.
pub fn parse_usage(text: &str) -> (r: (u32, Decimal))
    ensures
        r.0 == usage_count_of(text@),
        usage_pct_matches(r.1, text@),
{
    let chars = str_chars(text);
    proof {
        crate::text::lemma_first_index_of(chars@, ')');
    }
    let (seg0, rest) = chars_split_first(&chars, ')');
    proof {
        if first_index_of(chars@, ')') == chars@.len() {
            assert(chars@.subrange(0, first_index_of(chars@, ')')) =~= chars@);
        }
    }
    let count: u32 = if seg0.len() > 0 && seg0[0] == '(' {
        let body = crate::text::chars_slice(&seg0, 1, seg0.len());
        proof {
            assert(body@ =~= seg0@.drop_first());
        }
        let t = trim_chars(&body);
        crate::numbers::parse_u32_default(&t)
    } else {
        0
    };
    let pct: Decimal = match rest {
        Some(rest) => {
            proof {
                crate::text::lemma_first_index_of(rest@, ')');
            }
            let (seg1, _tail) = chars_split_first(&rest, ')');
            proof {
                if first_index_of(rest@, ')') == rest@.len() {
                    assert(rest@.subrange(0, first_index_of(rest@, ')')) =~= rest@);
                }
            }
            let t1 = trim_chars(&seg1);
            let s1 = chars_to_string(&t1);
            parse_pct(s1.as_str())
        },
        None => Decimal::zero(),
    };
    (count, pct)
}

fn compile(expr: &str) -> Result<scraper::Selector, VlrError> {
    match dom::compile_selector(expr) {
        Some(sel) => Ok(sel),
        None => Err(VlrError::Selector(String::from_str(expr))),
    }
}

/// The joined trimmed text of a table cell.
fn cell_text(doc: &scraper::Html, node: ego_tree::NodeId) -> String {
    let texts = dom::node_texts(doc, node);
    join_texts(&texts, "")
}

/// Find the first heading in `nodes` whose joined text contains the
/// section title, and hand back its next sibling container.
fn section_after_heading(
    doc: &scraper::Html,
    headings: &Vec<ego_tree::NodeId>,
    title: &str,
) -> Option<ego_tree::NodeId> {
    let mut i: usize = 0;
    while i < headings.len()
        decreases headings@.len() - i,
    {
        let text = {
            let texts = dom::node_texts(doc, headings[i]);
            join_texts(&texts, "")
        };
        let text_chars = str_chars(text.as_str());
        if chars_contain(&text_chars, title) {
            return dom::next_sibling_element(doc, headings[i]);
        }
        i = i + 1;
    }
    None
}

/// Assemble one agent statistics row from its seventeen cells: the
/// agent label, the usage cell split into count and fraction, then the
/// fifteen numeric cells in column order, each worth its lenient parse
/// (percentage columns divided by one hundred in the scale).
pub fn build_agent_stats(agent: String, use_text: &str, cells: &Vec<String>) -> (r:
    PlayerAgentStats)
    requires
        cells@.len() == 15,
    ensures
        r.agent == agent,
        r.usage_count == usage_count_of(use_text@),
        usage_pct_matches(r.usage_pct, use_text@),
        r.rounds == lenient_u32_of(cells@[0]@),
        r.rating == lenient_decimal_of(cells@[1]@),
        r.acs == lenient_decimal_of(cells@[2]@),
        r.kd == lenient_decimal_of(cells@[3]@),
        r.adr == lenient_decimal_of(cells@[4]@),
        pct_matches(r.kast, cells@[5]@),
        r.kpr == lenient_decimal_of(cells@[6]@),
        r.apr == lenient_decimal_of(cells@[7]@),
        r.fkpr == lenient_decimal_of(cells@[8]@),
        r.fdpr == lenient_decimal_of(cells@[9]@),
        r.kills == lenient_u32_of(cells@[10]@),
        r.deaths == lenient_u32_of(cells@[11]@),
        r.assists == lenient_u32_of(cells@[12]@),
        r.first_kills == lenient_u32_of(cells@[13]@),
        r.first_deaths == lenient_u32_of(cells@[14]@),
{
    let (usage_count, usage_pct) = parse_usage(use_text);
    PlayerAgentStats {
        agent,
        usage_count,
        usage_pct,
        rounds: parse_u32(cells[0].as_str()),
        rating: parse_lenient_decimal(cells[1].as_str()),
        acs: parse_lenient_decimal(cells[2].as_str()),
        kd: parse_lenient_decimal(cells[3].as_str()),
        adr: parse_lenient_decimal(cells[4].as_str()),
        kast: parse_pct(cells[5].as_str()),
        kpr: parse_lenient_decimal(cells[6].as_str()),
        apr: parse_lenient_decimal(cells[7].as_str()),
        fkpr: parse_lenient_decimal(cells[8].as_str()),
        fdpr: parse_lenient_decimal(cells[9].as_str()),
        kills: parse_u32(cells[10].as_str()),
        deaths: parse_u32(cells[11].as_str()),
        assists: parse_u32(cells[12].as_str()),
        first_kills: parse_u32(cells[13].as_str()),
        first_deaths: parse_u32(cells[14].as_str()),
    }
}

/// Parse the agent statistics table: seventeen fixed columns per row,
/// assembled by [`build_agent_stats`]. A row with fewer columns is
/// malformed and fails the section.
pub fn parse_agent_stats(doc: &scraper::Html) -> Result<Vec<PlayerAgentStats>, VlrError> {
    let row_sel = compile("table.wf-table tbody tr")?;
    let td_sel = compile("td")?;
    let img_sel = compile("img")?;
    let rows = dom::select_document(doc, &row_sel);
    let mut out: Vec<PlayerAgentStats> = Vec::new();
    let mut i: usize = 0;
    while i < rows.len()
        decreases rows@.len() - i,
    {
        let cells = dom::select_within(doc, rows[i], &td_sel);
        if cells.len() < 17 {
            return Err(VlrError::ElementNotFound(String::from_str("agent stats row")));
        }
        let agent = match dom::select_attr_opt(doc, cells[0], &img_sel, "alt") {
            Some(alt) => alt,
            None => String::new(),
        };
        let use_text = cell_text(doc, cells[1]);
        let mut numeric: Vec<String> = Vec::new();
        let mut c: usize = 2;
        while c < 17
            invariant
                2 <= c <= 17,
                numeric@.len() == c - 2,
                cells@.len() >= 17,
            decreases 17 - c,
        {
            numeric.push(cell_text(doc, cells[c]));
            c = c + 1;
        }
        out.push(build_agent_stats(agent, use_text.as_str(), &numeric));
        i = i + 1;
    }
    Ok(out)
}

/// Gather the socials of a header: every link with both an address and
/// a display text, its platform inferred from the address.
fn parse_socials(doc: &scraper::Html, nodes: &Vec<ego_tree::NodeId>) -> Vec<PlayerSocial> {
    let mut socials: Vec<PlayerSocial> = Vec::new();
    let mut i: usize = 0;
    while i < nodes.len()
        decreases nodes@.len() - i,
    {
        let href = match dom::node_attr(doc, nodes[i], "href") {
            Some(h) => {
                let c = str_chars(h.as_str());
                let t = trim_chars(&c);
                chars_to_string(&t)
            },
            None => String::new(),
        };
        let display_text = {
            let texts = dom::node_texts(doc, nodes[i]);
            join_texts(&texts, "")
        };
        if !href.as_str().is_empty() && !display_text.as_str().is_empty() {
            let platform = infer_platform(href.as_str());
            socials.push(PlayerSocial { platform, url: href, display_text });
        }
        i = i + 1;
    }
    socials
}

/// The last non-empty space-joined text of the matched elements: how a
/// light-text annotation is read.
fn last_light_text(doc: &scraper::Html, nodes: &Vec<ego_tree::NodeId>) -> Option<String> {
    let mut result: Option<String> = None;
    let mut i: usize = 0;
    while i < nodes.len()
        decreases nodes@.len() - i,
    {
        let texts = dom::node_texts(doc, nodes[i]);
        let joined = join_texts(&texts, " ");
        if !joined.as_str().is_empty() {
            result = Some(joined);
        }
        i = i + 1;
    }
    result
}

/// Parse the player header block. The header itself is structurally
/// required; everything inside degrades to absent values.
pub fn parse_player_info(doc: &scraper::Html, player_id: u32) -> (r: Result<PlayerInfo, VlrError>)
    ensures
        r matches Ok(info) ==> info.id == player_id,
{
    let header_sel = compile("div.player-header")?;
    let headers = dom::select_document(doc, &header_sel);
    if headers.len() == 0 {
        return Err(VlrError::ElementNotFound(String::from_str("player header")));
    }
    let header = headers[0];

    let name_sel = compile("h1.wf-title")?;
    let name = dom::select_text(doc, header, &name_sel);

    let real_name_sel = compile("h2.player-real-name")?;
    let real_name = nonempty_opt(dom::select_text(doc, header, &real_name_sel));

    let avatar_sel = compile("div.wf-avatar img")?;
    let avatar_url = match dom::select_attr_opt(doc, header, &avatar_sel, "src") {
        Some(src) => Some(normalize_img_url(src.as_str())),
        None => None,
    };

    let flag_sel = compile("i.flag")?;
    let country_code = {
        let flags = dom::select_within(doc, header, &flag_sel);
        if flags.len() == 0 {
            None
        } else {
            let classes = dom::node_classes(doc, flags[0]);
            class_with_prefix(&classes, "mod-")
        }
    };

    let country_sel = compile("div.ge-text-light")?;
    let country_nodes = dom::select_within(doc, header, &country_sel);
    let country = last_light_text(doc, &country_nodes);

    let social_sel = compile("a")?;
    let social_nodes = dom::select_within(doc, header, &social_sel);
    let socials = parse_socials(doc, &social_nodes);

    Ok(PlayerInfo { id: player_id, name, real_name, avatar_url, country, country_code, socials })
}

/// Assemble a team membership from its extracted values: the id and
/// slug come from the link path, zero and empty when it does not split
/// as a team path; everything else passes through.
pub fn build_player_team(
    href: String,
    name: String,
    logo_url: String,
    info: Option<String>,
) -> (r: PlayerTeam)
    ensures
        r.id == u32_or_zero(href_id_slug(href@, "/team/"@).0),
        r.slug@ == href_id_slug(href@, "/team/"@).1,
        r.href == href,
        r.name == name,
        r.logo_url == logo_url,
        r.info == info,
{
    let href_chars = str_chars(href.as_str());
    let (id_chars, slug_chars) = split_id_slug(&href_chars, "/team/");
    let id = crate::numbers::parse_u32_default(&id_chars);
    let slug = chars_to_string(&slug_chars);
    PlayerTeam { id, slug, href, name, logo_url, info }
}

fn parse_player_team(doc: &scraper::Html, node: ego_tree::NodeId) -> Result<PlayerTeam, VlrError> {
    let href = match dom::node_attr(doc, node, "href") {
        Some(h) => h,
        None => String::new(),
    };

    let img_sel = compile("img")?;
    let logo_url = match dom::select_attr_opt(doc, node, &img_sel, "src") {
        Some(src) => normalize_img_url(src.as_str()),
        None => String::new(),
    };

    let div_sel = compile("div")?;
    let divs = dom::select_within(doc, node, &div_sel);
    let mut name = String::new();
    let mut found_name = false;
    let mut i: usize = 0;
    while i < divs.len()
        decreases divs@.len() - i,
    {
        if !found_name {
            match dom::node_attr(doc, divs[i], "style") {
                Some(style) => {
                    let style_chars = str_chars(style.as_str());
                    if chars_contain(&style_chars, "font-weight") {
                        let texts = dom::node_texts(doc, divs[i]);
                        name = join_texts(&texts, "");
                        found_name = true;
                    }
                },
                None => {},
            }
        }
        i = i + 1;
    }

    let info_sel = compile("div.ge-text-light")?;
    let info_nodes = dom::select_within(doc, node, &info_sel);
    let info = last_light_text(doc, &info_nodes);

    Ok(build_player_team(href, name, logo_url, info))
}

/// Parse a team membership section located by its heading title; a page
/// without the heading yields an empty list.
pub fn parse_teams_section(doc: &scraper::Html, section_title: &str) -> Result<
    Vec<PlayerTeam>,
    VlrError,
> {
    let label_sel = compile("h2.wf-label")?;
    let link_sel = compile("a.wf-module-item")?;
    let headings = dom::select_document(doc, &label_sel);
    let card = match section_after_heading(doc, &headings, section_title) {
        Some(card) => card,
        None => {
            return Ok(Vec::new());
        },
    };
    let links = dom::select_within(doc, card, &link_sel);
    let mut teams: Vec<PlayerTeam> = Vec::new();
    let mut i: usize = 0;
    while i < links.len()
        decreases links@.len() - i,
    {
        match parse_player_team(doc, links[i]) {
            Ok(t) => teams.push(t),
            Err(_) => {},
        }
        i = i + 1;
    }
    Ok(teams)
}

/// Parse the Latest News section; absent heading, empty list. An item
/// enters the result only with a non-empty link and a non-empty title;
/// incomplete items are passed over silently.
pub fn parse_player_news(doc: &scraper::Html) -> (r: Result<Vec<PlayerNewsItem>, VlrError>)
    ensures
        r matches Ok(news) ==> forall|i: int|
            0 <= i < news@.len() ==> (#[trigger] news@[i]).href@.len() > 0
                && news@[i].title@.len() > 0,
{
    let label_sel = compile("h2.wf-label")?;
    let item_sel = compile("a.wf-module-item")?;
    let date_sel = compile("div.ge-text-light")?;
    let headings = dom::select_document(doc, &label_sel);
    let card = match section_after_heading(doc, &headings, "Latest News") {
        Some(card) => card,
        None => {
            return Ok(Vec::new());
        },
    };
    let items = dom::select_within(doc, card, &item_sel);
    let mut news: Vec<PlayerNewsItem> = Vec::new();
    let mut i: usize = 0;
    while i < items.len()
        invariant
            forall|j: int|
                0 <= j < news@.len() ==> (#[trigger] news@[j]).href@.len() > 0
                    && news@[j].title@.len() > 0,
        decreases items@.len() - i,
    {
        let href = match dom::node_attr(doc, items[i], "href") {
            Some(h) => {
                let c = str_chars(h.as_str());
                let t = trim_chars(&c);
                chars_to_string(&t)
            },
            None => String::new(),
        };
        if !href.as_str().is_empty() {
            let date = dom::select_text(doc, items[i], &date_sel);
            let children = dom::child_elements(doc, items[i]);
            let mut title_texts: Vec<String> = Vec::new();
            let mut c: usize = 0;
            while c < children.len()
                decreases children@.len() - c,
            {
                match dom::node_attr(doc, children[c], "style") {
                    Some(style) => {
                        let style_chars = str_chars(style.as_str());
                        if chars_contain(&style_chars, "font-weight") {
                            let texts = dom::node_texts(doc, children[c]);
                            let mut t: usize = 0;
                            while t < texts.len()
                                decreases texts@.len() - t,
                            {
                                title_texts.push(texts[t].clone());
                                t = t + 1;
                            }
                        }
                    },
                    None => {},
                }
                c = c + 1;
            }
            let title = join_texts(&title_texts, "");
            if !title.as_str().is_empty() {
                news.push(PlayerNewsItem { href, date, title });
            }
        }
        i = i + 1;
    }
    Ok(news)
}

/// Assemble one placement entry from its extracted texts: the stage
/// cell split at its en-dash into a trimmed stage and placement (kept
/// whole with an empty placement when there is no dash), the prize
/// passed through, and the team name left once the stage text, every
/// en-dash and the prize are blanked out of the entry's joined text.
pub fn build_placement_entry(
    stage_placement: &str,
    prize: Option<String>,
    raw_team: &str,
) -> (r: PlayerPlacementEntry)
    ensures
        ({
            let sp = stage_placement@;
            let k = first_index_of(sp, '–');
            &&& (if k < sp.len() {
                r.stage@ == trimmed(sp.subrange(0, k)) && r.placement@ == trimmed(
                    sp.subrange(k + 1, sp.len() as int),
                )
            } else {
                r.stage@ == sp && r.placement@.len() == 0
            })
            &&& r.prize == prize
            &&& ({
                let base = without_char(without_sub(raw_team@, sp), '–');
                let cleaned_team = match prize {
                    Some(p) => without_sub(base, p@),
                    None => base,
                };
                r.team_name@ == trimmed(cleaned_team)
            })
        }),
{
    let sp_chars = str_chars(stage_placement);
    let (before, after) = chars_split_first(&sp_chars, '–');
    let (stage, placement) = match after {
        Some(after) => {
            let ts = trim_chars(&before);
            let tp = trim_chars(&after);
            (chars_to_string(&ts), chars_to_string(&tp))
        },
        None => (chars_to_string(&before), String::new()),
    };
    let team_chars = str_chars(raw_team);
    let without_stage = remove_substring(&team_chars, &sp_chars);
    let without_dash = crate::text::remove_char_all(&without_stage, '–');
    let cleaned_team = match &prize {
        Some(p) => {
            let p_chars = str_chars(p.as_str());
            remove_substring(&without_dash, &p_chars)
        },
        None => without_dash,
    };
    let trimmed_team = trim_chars(&cleaned_team);
    let team_name = chars_to_string(&trimmed_team);
    PlayerPlacementEntry { stage, placement, prize, team_name }
}

/// Parse the Event Placements section and the total winnings figure;
/// absent heading, empty list and no figure. Every returned placement
/// carries at least one entry: an event whose entries all fail to
/// parse is dropped.
pub fn parse_event_placements(doc: &scraper::Html) -> (r: Result<
    (Vec<PlayerEventPlacement>, Option<String>),
    VlrError,
>)
    ensures
        r matches Ok(t) ==> forall|i: int|
            0 <= i < t.0@.len() ==> (#[trigger] t.0@[i]).placements@.len() > 0,
{
    let label_sel = compile("h2.wf-label")?;
    let item_sel = compile("a.player-event-item")?;
    let headings = dom::select_document(doc, &label_sel);
    let card = match section_after_heading(doc, &headings, "Event Placements") {
        Some(card) => card,
        None => {
            return Ok((Vec::new(), None));
        },
    };

    let span_sel = compile("span")?;
    let card_children = dom::child_elements(doc, card);
    let total_winnings = if card_children.len() > 0 {
        let spans = dom::select_within(doc, card_children[0], &span_sel);
        if spans.len() > 0 {
            nonempty_opt(cell_text(doc, spans[0]))
        } else {
            None
        }
    } else {
        None
    };

    let event_name_sel = compile("div.text-of")?;
    let stage_sel = compile("span.ge-text-light")?;
    let prize_sel = compile("span[style]")?;

    let items = dom::select_within(doc, card, &item_sel);
    let mut placements: Vec<PlayerEventPlacement> = Vec::new();
    let mut i: usize = 0;
    while i < items.len()
        invariant
            forall|j: int|
                0 <= j < placements@.len() ==> (#[trigger] placements@[j]).placements@.len() > 0,
        decreases items@.len() - i,
    {
        let item = items[i];
        let href = match dom::node_attr(doc, item, "href") {
            Some(h) => {
                let c = str_chars(h.as_str());
                let t = trim_chars(&c);
                chars_to_string(&t)
            },
            None => String::new(),
        };
        let href_chars = str_chars(href.as_str());
        let (id_chars, slug_chars) = split_id_slug(&href_chars, "/event/");
        let event_id = crate::numbers::parse_u32_default(&id_chars);
        let event_slug = chars_to_string(&slug_chars);
        let event_name = dom::select_text(doc, item, &event_name_sel);

        let children = dom::child_elements(doc, item);
        let year = if children.len() > 0 {
            cell_text(doc, children[children.len() - 1])
        } else {
            String::new()
        };

        let mut entries: Vec<PlayerPlacementEntry> = Vec::new();
        if children.len() > 0 {
            let container = children[0];
            let entry_divs = dom::child_elements(doc, container);
            let mut e: usize = 0;
            while e < entry_divs.len()
                decreases entry_divs@.len() - e,
            {
                let entry = entry_divs[e];
                let entry_classes = dom::node_classes(doc, entry);
                if !crate::text::list_has_str(&entry_classes, "text-of") {
                    let stage_nodes = dom::select_within(doc, entry, &stage_sel);
                    let stage_placement = if stage_nodes.len() > 0 {
                        cell_text(doc, stage_nodes[0])
                    } else {
                        String::new()
                    };
                    if !stage_placement.as_str().is_empty() {
                        let prize_nodes = dom::select_within(doc, entry, &prize_sel);
                        let mut prize: Option<String> = None;
                        let mut pz: usize = 0;
                        while pz < prize_nodes.len()
                            decreases prize_nodes@.len() - pz,
                        {
                            if prize.is_none() {
                                match dom::node_attr(doc, prize_nodes[pz], "style") {
                                    Some(style) => {
                                        let style_chars = str_chars(style.as_str());
                                        if chars_contain(&style_chars, "font-weight") {
                                            let p = cell_text(doc, prize_nodes[pz]);
                                            if !p.as_str().is_empty() {
                                                prize = Some(p);
                                            }
                                        }
                                    },
                                    None => {},
                                }
                            }
                            pz = pz + 1;
                        }

                        let entry_texts = dom::node_texts(doc, entry);
                        let raw_team = join_texts(&entry_texts, " ");
                        entries.push(build_placement_entry(
                            stage_placement.as_str(),
                            prize,
                            raw_team.as_str(),
                        ));
                    }
                }
                e = e + 1;
            }
        }

        if entries.len() > 0 {
            placements.push(
                PlayerEventPlacement {
                    event_id,
                    event_slug,
                    event_href: href,
                    event_name,
                    placements: entries,
                    year,
                },
            );
        }
        i = i + 1;
    }
    Ok((placements, total_winnings))
}

/// Parse a player overview page into its identity block and its two
/// team membership lists.
pub fn parse_player_overview(doc: &scraper::Html, player_id: u32) -> (r: Result<
    (PlayerInfo, Vec<PlayerTeam>, Vec<PlayerTeam>),
    VlrError,
>)
    ensures
        r matches Ok(t) ==> t.0.id == player_id,
{
    let info = parse_player_info(doc, player_id)?;
    let current_teams = parse_teams_section(doc, "Current Teams")?;
    let past_teams = parse_teams_section(doc, "Past Teams")?;
    Ok((info, current_teams, past_teams))
}

/// Parse a complete player profile from one overview document. The
/// identity keeps the given id; every news item carries a link and a
/// title, and every event placement carries at least one entry.
pub fn parse_player(doc: &scraper::Html, player_id: u32) -> (r: Result<Player, VlrError>)
    ensures
        r matches Ok(p) ==> {
            &&& p.info.id == player_id
            &&& forall|i: int|
                0 <= i < p.news@.len() ==> (#[trigger] p.news@[i]).href@.len() > 0
                    && p.news@[i].title@.len() > 0
            &&& forall|i: int|
                0 <= i < p.event_placements@.len() ==> (
                #[trigger] p.event_placements@[i]).placements@.len() > 0
        },
{
    let (info, current_teams, past_teams) = parse_player_overview(doc, player_id)?;
    let news = parse_player_news(doc)?;
    let (event_placements, total_winnings) = parse_event_placements(doc)?;
    let agent_stats = parse_agent_stats(doc)?;
    Ok(
        Player {
            info,
            current_teams,
            past_teams,
            agent_stats,
            news,
            event_placements,
            total_winnings,
        },
    )
}

fn parse_history_team(
    doc: &scraper::Html,
    team_node: ego_tree::NodeId,
    logo_node: ego_tree::NodeId,
    score_node: ego_tree::NodeId,
) -> Result<PlayerMatchListTeam, VlrError> {
    let name_sel = compile("span.m-item-team-name")?;
    let tag_sel = compile("span.m-item-team-tag")?;
    let name = dom::select_text(doc, team_node, &name_sel);
    let tag = dom::select_text(doc, team_node, &tag_sel);
    let logo_url = match dom::node_attr(doc, logo_node, "src") {
        Some(src) => normalize_img_url(src.as_str()),
        None => String::new(),
    };
    let score_texts = dom::node_texts(doc, score_node);
    let score_text = dom::last_text_trimmed_of(&score_texts);
    let score_chars = str_chars(score_text.as_str());
    let score = parse_u8_opt(&score_chars);
    Ok(PlayerMatchListTeam { name, tag, logo_url, score })
}

fn parse_history_item(doc: &scraper::Html, node: ego_tree::NodeId) -> Result<
    PlayerMatchListItem,
    VlrError,
> {
    let href = match dom::node_attr(doc, node, "href") {
        Some(h) => h,
        None => {
            return Err(VlrError::ElementNotFound(String::from_str("player match item href")));
        },
    };
    let (id, slug) = match parse_card_ref(href.as_str()) {
        Some(pair) => pair,
        None => {
            return Err(VlrError::ElementNotFound(String::from_str("player match item href")));
        },
    };

    let icon_sel = compile("div.m-item-thumb img")?;
    let league_icon = match dom::select_attr_opt(doc, node, &icon_sel, "src") {
        Some(src) => normalize_img_url(src.as_str()),
        None => String::new(),
    };
    let league_name_sel = compile("div.m-item-event div")?;
    let league_name = dom::select_text(doc, node, &league_name_sel);
    let league_series_sel = compile("div.m-item-event")?;
    let series_nodes = dom::select_within(doc, node, &league_series_sel);
    let league_series_name = if series_nodes.len() > 0 {
        let texts = dom::node_texts(doc, series_nodes[series_nodes.len() - 1]);
        dom::last_text_of(&texts)
    } else {
        String::new()
    };

    let teams_sel = compile("div.m-item-team")?;
    let logos_sel = compile("div.m-item-logo img")?;
    let scores_sel = compile("div.m-item-result span")?;
    let team_nodes = dom::select_within(doc, node, &teams_sel);
    let logo_nodes = dom::select_within(doc, node, &logos_sel);
    let score_nodes = dom::select_within(doc, node, &scores_sel);
    let mut teams: Vec<PlayerMatchListTeam> = Vec::new();
    let mut i: usize = 0;
    while i < team_nodes.len() && i < logo_nodes.len() && i < score_nodes.len()
        decreases team_nodes@.len() - i,
    {
        let t = parse_history_team(doc, team_nodes[i], logo_nodes[i], score_nodes[i])?;
        teams.push(t);
        i = i + 1;
    }

    let vods_sel = compile("div.m-item-vods div.wf-tag span.full")?;
    let vod_nodes = dom::select_within(doc, node, &vods_sel);
    let mut vods: Vec<String> = Vec::new();
    let mut k: usize = 0;
    while k < vod_nodes.len()
        decreases vod_nodes@.len() - k,
    {
        let texts = dom::node_texts(doc, vod_nodes[k]);
        if texts.len() > 0 {
            vods.push(dom::last_text_trimmed_of(&texts));
        }
        k = k + 1;
    }

    let date_sel = compile("div.m-item-date div")?;
    let date_text = dom::select_text(doc, node, &date_sel);
    let time_sel = compile("div.m-item-date")?;
    let time_nodes = dom::select_within(doc, node, &time_sel);
    let time_text = if time_nodes.len() > 0 {
        let texts = dom::node_texts(doc, time_nodes[time_nodes.len() - 1]);
        dom::last_text_of(&texts)
    } else {
        String::new()
    };
    let match_start = combine_start(date_text.as_str(), time_text.as_str());

    Ok(
        PlayerMatchListItem {
            id,
            slug,
            league_icon,
            league_name,
            league_series_name,
            teams,
            vods,
            match_start,
        },
    )
}

/// Parse a player's match history page.
pub fn parse_player_matchlist(doc: &scraper::Html) -> Result<
    Vec<PlayerMatchListItem>,
    VlrError,
> {
    let sel = compile("div#wrapper div.col a.m-item")?;
    let nodes = dom::select_document(doc, &sel);
    let mut items: Vec<PlayerMatchListItem> = Vec::new();
    let mut i: usize = 0;
    while i < nodes.len()
        decreases nodes@.len() - i,
    {
        let item = parse_history_item(doc, nodes[i])?;
        items.push(item);
        i = i + 1;
    }
    Ok(items)
}

} // verus!
