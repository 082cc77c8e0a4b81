//! The match-history item parser shared by player and team histories.
//!
//! Each history entry is one `m-item` card; its link is structurally
//! required and must hold an id and a slug, while the date and time are
//! optional and combine into a start timestamp only when both parse.

use vstd::prelude::*;
use vstd::string::*;

use crate::dates::DateTime;
use crate::dom;
use crate::error::VlrError;
use crate::numbers::{parse_u8_opt, parse_u32_default, u32_or_zero};
use crate::dates::{date_from_text, time_from_text};
use crate::text::{chars_split_exact2, chars_strip_prefix, chars_to_string, count_char, starts_with, str_chars};
use crate::utils::href_id_slug;
use crate::utils::normalize_img_url;

verus! {

/// A single match entry in a match history.
#[derive(Debug, Clone)]
pub struct MatchItem {
    pub id: u32,
    pub slug: String,
    pub league_icon: String,
    pub league_name: String,
    pub league_series_name: String,
    pub teams: Vec<MatchItemTeam>,
    pub vods: Vec<String>,
    pub match_start: Option<DateTime>,
}

/// Team information as shown in a match history item.
#[derive(Debug, Clone)]
pub struct MatchItemTeam {
    pub name: String,
    pub tag: String,
    pub logo_url: String,
    pub score: Option<u8>,
}

/// A card's start timestamp agrees with its date and time texts:
/// present exactly when the date text parses with the history date
/// format and the time text with the clock format.
pub open spec fn start_matches(r: Option<DateTime>, date_text: Seq<char>, time_text: Seq<char>) -> bool {
    match (date_from_text(date_text, "%Y/%m/%d"@), time_from_text(time_text, "%I:%M %p"@)) {
        (Some(d), Some(t)) => r matches Some(dt) && dt.date.year == d.0 && dt.date.month == d.1
            && dt.date.day == d.2 && dt.time.hour == t.0 && dt.time.minute == t.1
            && dt.time.second == t.2,
        _ => r is None,
    }
}

/// Combine a history card's date and time texts into its start
/// timestamp, absent unless both parse.
pub fn combine_start(date_text: &str, time_text: &str) -> (r: Option<DateTime>)
    ensures
        start_matches(r, date_text@, time_text@),
{
    let date = crate::dates::parse_date(date_text, "%Y/%m/%d");
    let time = crate::dates::parse_time(time_text, "%I:%M %p");
    match (date, time) {
        (Some(d), Some(t)) => Some(DateTime { date: d, time: t }),
        _ => None,
    }
}

/// Whether a card link is usable: a leading slash, then exactly one
/// more slash between the id and the slug.
pub open spec fn card_ref_ok(href: Seq<char>) -> bool {
    starts_with(href, "/"@) && count_char(
        href.subrange("/"@.len() as int, href.len() as int),
        '/',
    ) == 1
}

/// Split a history card's link into its match id and slug: the id is
/// the first segment's number, zero when unreadable. Yields nothing
/// exactly when the link has no leading slash or does not split at one
/// further slash; such a card is structurally broken.
pub fn parse_card_ref(href: &str) -> (r: Option<(u32, String)>)
    ensures
        match r {
            Some(pair) => card_ref_ok(href@) && pair.0 == u32_or_zero(
                href_id_slug(href@, "/"@).0,
            ) && pair.1@ == href_id_slug(href@, "/"@).1,
            None => !card_ref_ok(href@),
        },
{
    let chars = str_chars(href);
    match chars_strip_prefix(&chars, "/") {
        Some(rest) => {
            match chars_split_exact2(&rest, '/') {
                Some(parts) => Some((parse_u32_default(&parts.0), chars_to_string(&parts.1))),
                None => None,
            }
        },
        None => None,
    }
}

fn compile(expr: &str) -> Result<scraper::Selector, VlrError> {
    match dom::compile_selector(expr) {
        Some(sel) => Ok(sel),
        None => Err(VlrError::Selector(String::from_str(expr))),
    }
}

fn parse_item_team(
    doc: &scraper::Html,
    team_node: ego_tree::NodeId,
    logo_node: ego_tree::NodeId,
    score_node: ego_tree::NodeId,
) -> Result<MatchItemTeam, VlrError> {
    let name_sel = compile("span.m-item-team-name")?;
    let tag_sel = compile("span.m-item-team-tag")?;
    let name = dom::select_text(doc, team_node, &name_sel);
    let tag = dom::select_text(doc, team_node, &tag_sel);
    let logo_url = match dom::node_attr(doc, logo_node, "src") {
        Some(src) => normalize_img_url(src.as_str()),
        None => String::new(),
    };
    let score_texts = dom::node_texts(doc, score_node);
    let score_text = dom::last_text_trimmed_of(&score_texts);
    let score_chars = str_chars(score_text.as_str());
    let score = parse_u8_opt(&score_chars);
    Ok(MatchItemTeam { name, tag, logo_url, score })
}

/// Parse one history card. Fails when its link does not split into an
/// id and a slug; the timestamp is present only when both the date and
/// the time of the card parse.
fn parse_match_item(doc: &scraper::Html, node: ego_tree::NodeId) -> Result<MatchItem, VlrError> {
    let href = match dom::node_attr(doc, node, "href") {
        Some(h) => h,
        None => {
            return Err(VlrError::ElementNotFound(String::from_str("match item href")));
        },
    };
    let (id, slug) = match parse_card_ref(href.as_str()) {
        Some(pair) => pair,
        None => {
            return Err(VlrError::ElementNotFound(String::from_str("match item href")));
        },
    };

    let icon_sel = compile("div.m-item-thumb img")?;
    let league_icon = match dom::select_attr_opt(doc, node, &icon_sel, "src") {
        Some(src) => normalize_img_url(src.as_str()),
        None => String::new(),
    };

    let league_name_sel = compile("div.m-item-event div")?;
    let league_name = dom::select_text(doc, node, &league_name_sel);

    let league_series_sel = compile("div.m-item-event")?;
    let series_nodes = dom::select_within(doc, node, &league_series_sel);
    let league_series_name = if series_nodes.len() > 0 {
        let texts = dom::node_texts(doc, series_nodes[series_nodes.len() - 1]);
        dom::last_text_of(&texts)
    } else {
        String::new()
    };

    let teams_sel = compile("div.m-item-team")?;
    let logos_sel = compile("div.m-item-logo img")?;
    let scores_sel = compile("div.m-item-result span")?;
    let team_nodes = dom::select_within(doc, node, &teams_sel);
    let logo_nodes = dom::select_within(doc, node, &logos_sel);
    let score_nodes = dom::select_within(doc, node, &scores_sel);
    let mut teams: Vec<MatchItemTeam> = Vec::new();
    let mut i: usize = 0;
    while i < team_nodes.len() && i < logo_nodes.len() && i < score_nodes.len()
        decreases team_nodes@.len() - i,
    {
        let t = parse_item_team(doc, team_nodes[i], logo_nodes[i], score_nodes[i])?;
        teams.push(t);
        i = i + 1;
    }

    let vods_sel = compile("div.m-item-vods div.wf-tag span.full")?;
    let vod_nodes = dom::select_within(doc, node, &vods_sel);
    let mut vods: Vec<String> = Vec::new();
    let mut k: usize = 0;
    while k < vod_nodes.len()
        decreases vod_nodes@.len() - k,
    {
        let texts = dom::node_texts(doc, vod_nodes[k]);
        if texts.len() > 0 {
            vods.push(dom::last_text_trimmed_of(&texts));
        }
        k = k + 1;
    }

    let date_sel = compile("div.m-item-date div")?;
    let date_text = dom::select_text(doc, node, &date_sel);

    let time_sel = compile("div.m-item-date")?;
    let time_nodes = dom::select_within(doc, node, &time_sel);
    let time_text = if time_nodes.len() > 0 {
        let texts = dom::node_texts(doc, time_nodes[time_nodes.len() - 1]);
        dom::last_text_of(&texts)
    } else {
        String::new()
    };
    let match_start = combine_start(date_text.as_str(), time_text.as_str());

    Ok(
        MatchItem {
            id,
            slug,
            league_icon,
            league_name,
            league_series_name,
            teams,
            vods,
            match_start,
        },
    )
}

/// Parse every history card of the page, in document order. The parse
/// fails when any card's link cannot be split into an id and a slug.
pub fn parse_match_items(doc: &scraper::Html) -> Result<Vec<MatchItem>, VlrError> {
    let sel = compile("div#wrapper div.col a.m-item")?;
    let nodes = dom::select_document(doc, &sel);
    let mut items: Vec<MatchItem> = Vec::new();
    let mut i: usize = 0;
    while i < nodes.len()
        decreases nodes@.len() - i,
    {
        let item = parse_match_item(doc, nodes[i])?;
        items.push(item);
        i = i + 1;
    }
    Ok(items)
}

} // verus!
