//! The team profile parser: header block, roster, event placements and
//! the roster transaction log.
//!
//! The roster gives a member the default role `"player"` when no role
//! text is present, and a captain flag from the presence of a star
//! icon. A transaction whose date cell reads `"Unknown"` carries an
//! absent date rather than an error.

use vstd::prelude::*;
use vstd::string::*;

use crate::common::{EventPlacement, PlacementEntry, Social};
use crate::dates::{date_from_text, parse_date, CalendarDate};
use crate::dom;
use crate::error::VlrError;
use crate::numbers::u32_or_zero;
use crate::text::{
    chars_contain, chars_eq_str, chars_split_first, chars_to_string, first_index_of, join_texts,
    str_chars, trim_chars, trimmed,
};
use crate::utils::{class_with_prefix, href_id_slug, infer_platform, nonempty_opt, normalize_img_url, split_id_slug};

verus! {

/// Complete team profile data from a team overview page.
#[derive(Debug, Clone)]
pub struct Team {
    pub info: TeamInfo,
    pub roster: Vec<TeamRosterMember>,
    pub event_placements: Vec<EventPlacement>,
    pub total_winnings: Option<String>,
}

/// Basic profile information for a team.
#[derive(Debug, Clone)]
pub struct TeamInfo {
    pub id: u32,
    pub name: String,
    pub tag: Option<String>,
    pub logo_url: Option<String>,
    pub country: Option<String>,
    pub country_code: Option<String>,
    pub socials: Vec<Social>,
}

/// A member of a team's roster (player or staff).
#[derive(Debug, Clone)]
pub struct TeamRosterMember {
    pub id: u32,
    pub slug: String,
    pub href: String,
    pub alias: String,
    pub real_name: Option<String>,
    pub country_code: Option<String>,
    pub avatar_url: Option<String>,
    pub role: String,
    pub is_captain: bool,
}

/// A single roster transaction (join, leave, or inactive change).
#[derive(Debug, Clone)]
pub struct TeamTransaction {
    pub date: Option<CalendarDate>,
    pub action: String,
    pub player_id: u32,
    pub player_slug: String,
    pub player_alias: String,
    pub player_real_name: Option<String>,
    pub player_country_code: Option<String>,
    pub position: String,
    pub reference_url: Option<String>,
}

fn compile(expr: &str) -> Result<scraper::Selector, VlrError> {
    match dom::compile_selector(expr) {
        Some(sel) => Ok(sel),
        None => Err(VlrError::Selector(String::from_str(expr))),
    }
}

fn joined_text(doc: &scraper::Html, node: ego_tree::NodeId, sep: &str) -> String {
    let texts = dom::node_texts(doc, node);
    join_texts(&texts, sep)
}

/// Parse the team header block. The header is structurally required.
pub fn parse_team_header(doc: &scraper::Html, team_id: u32) -> (r: Result<TeamInfo, VlrError>)
    ensures
        r matches Ok(info) ==> info.id == team_id,
{
    let header_sel = compile(".team-header")?;
    let headers = dom::select_document(doc, &header_sel);
    if headers.len() == 0 {
        return Err(VlrError::ElementNotFound(String::from_str("team header")));
    }
    let header = headers[0];

    let name_sel = compile("h1.wf-title")?;
    let name = dom::select_text(doc, header, &name_sel);

    let tag_sel = compile("h2.wf-title.team-header-tag")?;
    let tag = nonempty_opt(dom::select_text(doc, header, &tag_sel));

    let logo_sel = compile(".team-header-logo img")?;
    let logo_url = match dom::select_attr_opt(doc, header, &logo_sel, "src") {
        Some(src) => Some(normalize_img_url(src.as_str())),
        None => None,
    };

    let country_sel = compile(".team-header-country")?;
    let country = {
        let nodes = dom::select_within(doc, header, &country_sel);
        if nodes.len() == 0 {
            None
        } else {
            nonempty_opt(joined_text(doc, nodes[0], " "))
        }
    };

    let flag_sel = compile(".team-header-country i.flag")?;
    let country_code = {
        let flags = dom::select_within(doc, header, &flag_sel);
        if flags.len() == 0 {
            None
        } else {
            let classes = dom::node_classes(doc, flags[0]);
            class_with_prefix(&classes, "mod-")
        }
    };

    let links_sel = compile(".team-header-links a")?;
    let link_nodes = dom::select_within(doc, header, &links_sel);
    let mut socials: Vec<Social> = Vec::new();
    let mut i: usize = 0;
    while i < link_nodes.len()
        decreases link_nodes@.len() - i,
    {
        let href = match dom::node_attr(doc, link_nodes[i], "href") {
            Some(h) => {
                let c = str_chars(h.as_str());
                let t = trim_chars(&c);
                chars_to_string(&t)
            },
            None => String::new(),
        };
        let display_text = joined_text(doc, link_nodes[i], "");
        if !href.as_str().is_empty() && !display_text.as_str().is_empty() {
            let platform = infer_platform(href.as_str());
            socials.push(Social { platform, url: href, display_text });
        }
        i = i + 1;
    }

    Ok(TeamInfo { id: team_id, name, tag, logo_url, country, country_code, socials })
}

/// The role a roster member carries: the role cell's text, or
/// `"player"` when the cell is absent or empty; never empty.
pub fn role_or_player(text: String) -> (r: String)
    ensures
        r@ == (if text@.len() == 0 {
            "player"@
        } else {
            text@
        }),
        r@.len() > 0,
{
    if text.as_str().is_empty() {
        proof {
            reveal_strlit("player");
        }
        String::from_str("player")
    } else {
        text
    }
}

/// Parse the roster items. A member without a link or whose link does
/// not split into id and slug is skipped; an absent role text defaults
/// to `"player"`, so every member carries a non-empty role.
pub fn parse_roster(doc: &scraper::Html) -> (r: Result<Vec<TeamRosterMember>, VlrError>)
    ensures
        r matches Ok(roster) ==> forall|i: int|
            0 <= i < roster@.len() ==> (#[trigger] roster@[i]).role@.len() > 0,
{
    let item_sel = compile(".team-roster-item")?;
    let link_sel = compile("a[href]")?;
    let alias_sel = compile(".team-roster-item-name-alias")?;
    let real_name_sel = compile(".team-roster-item-name-real")?;
    let flag_sel = compile("i.flag")?;
    let img_sel = compile(".team-roster-item-img img")?;
    let star_sel = compile("i.fa-star")?;
    let role_sel = compile(".team-roster-item-name-role")?;

    let items = dom::select_document(doc, &item_sel);
    let mut roster: Vec<TeamRosterMember> = Vec::new();
    let mut i: usize = 0;
    while i < items.len()
        invariant
            forall|j: int|
                0 <= j < roster@.len() ==> (#[trigger] roster@[j]).role@.len() > 0,
        decreases items@.len() - i,
    {
        let item = items[i];
        let links = dom::select_within(doc, item, &link_sel);
        if links.len() > 0 {
            let href_opt = dom::node_attr(doc, links[0], "href");
            match href_opt {
                Some(h) => {
                    let c = str_chars(h.as_str());
                    let t = trim_chars(&c);
                    let href = chars_to_string(&t);
                    let split = match crate::text::chars_strip_prefix(&t, "/player/") {
                        Some(rest) => crate::text::chars_split_exact2(&rest, '/'),
                        None => None,
                    };
                    if let Some(parts) = split {
                        let id = crate::numbers::parse_u32_default(&parts.0);
                        let slug = chars_to_string(&parts.1);

                        let alias = {
                            let nodes = dom::select_within(doc, item, &alias_sel);
                            if nodes.len() > 0 {
                                joined_text(doc, nodes[0], "")
                            } else {
                                String::new()
                            }
                        };
                        let real_name = {
                            let nodes = dom::select_within(doc, item, &real_name_sel);
                            if nodes.len() > 0 {
                                nonempty_opt(joined_text(doc, nodes[0], ""))
                            } else {
                                None
                            }
                        };
                        let country_code = {
                            let flags = dom::select_within(doc, item, &flag_sel);
                            if flags.len() == 0 {
                                None
                            } else {
                                let classes = dom::node_classes(doc, flags[0]);
                                class_with_prefix(&classes, "mod-")
                            }
                        };
                        let avatar_url = match dom::select_attr_opt(doc, item, &img_sel, "src") {
                            Some(src) => Some(normalize_img_url(src.as_str())),
                            None => None,
                        };
                        let is_captain = dom::select_within(doc, item, &star_sel).len() > 0;
                        let role = {
                            let nodes = dom::select_within(doc, item, &role_sel);
                            let text = if nodes.len() > 0 {
                                joined_text(doc, nodes[0], "")
                            } else {
                                String::new()
                            };
                            role_or_player(text)
                        };
                        roster.push(
                            TeamRosterMember {
                                id,
                                slug,
                                href,
                                alias,
                                real_name,
                                country_code,
                                avatar_url,
                                role,
                                is_captain,
                            },
                        );
                    }
                },
                None => {},
            }
        }
        i = i + 1;
    }
    Ok(roster)
}

/// Assemble one placement entry of a team's event card: the series
/// cell split at its en-dash into a trimmed stage and placement (kept
/// whole with an empty placement when there is no dash), the prize
/// passed through; a team card names no team on its own entry.
pub fn build_team_placement(stage_placement: String, prize: Option<String>) -> (r: PlacementEntry)
    ensures
        ({
            let sp = stage_placement@;
            let k = first_index_of(sp, '–');
            &&& (if k < sp.len() {
                r.stage@ == trimmed(sp.subrange(0, k)) && r.placement@ == trimmed(
                    sp.subrange(k + 1, sp.len() as int),
                )
            } else {
                r.stage@ == sp && r.placement@.len() == 0
            })
            &&& r.prize == prize
            &&& r.team_name is None
        }),
{
    let sp_chars = str_chars(stage_placement.as_str());
    let (before, after) = chars_split_first(&sp_chars, '–');
    let (stage, placement) = match after {
        Some(after) => {
            let ts = trim_chars(&before);
            let tp = trim_chars(&after);
            (chars_to_string(&ts), chars_to_string(&tp))
        },
        None => (stage_placement, String::new()),
    };
    PlacementEntry { stage, placement, prize, team_name: None }
}

/// Parse the event placement cards and the total winnings figure.
/// Every returned card carries exactly one placement entry.
pub fn parse_team_placements(doc: &scraper::Html) -> (r: Result<
    (Vec<EventPlacement>, Option<String>),
    VlrError,
>)
    ensures
        r matches Ok(t) ==> forall|i: int|
            0 <= i < t.0@.len() ==> (#[trigger] t.0@[i]).placements@.len() == 1,
{
    let item_sel = compile("a.team-event-item")?;
    let event_name_sel = compile("div.text-of")?;
    let series_sel = compile("span.team-event-item-series")?;
    let prize_sel = compile("span[style]")?;
    let winnings_label_sel = compile("div.wf-module-label")?;

    let labels = dom::select_document(doc, &winnings_label_sel);
    let mut total_winnings: Option<String> = None;
    let mut li: usize = 0;
    while li < labels.len()
        decreases labels@.len() - li,
    {
        if total_winnings.is_none() {
            let text = joined_text(doc, labels[li], "");
            let text_chars = str_chars(text.as_str());
            if chars_contain(&text_chars, "Total Winnings") {
                match dom::next_sibling_element(doc, labels[li]) {
                    Some(span) => {
                        let w = joined_text(doc, span, "");
                        if !w.as_str().is_empty() {
                            total_winnings = Some(w);
                        }
                    },
                    None => {},
                }
            }
        }
        li = li + 1;
    }

    let items = dom::select_document(doc, &item_sel);
    let mut placements: Vec<EventPlacement> = Vec::new();
    let mut i: usize = 0;
    while i < items.len()
        invariant
            forall|j: int|
                0 <= j < placements@.len() ==> (#[trigger] placements@[j]).placements@.len() == 1,
        decreases items@.len() - i,
    {
        let item = items[i];
        let href = match dom::node_attr(doc, item, "href") {
            Some(h) => {
                let c = str_chars(h.as_str());
                let t = trim_chars(&c);
                chars_to_string(&t)
            },
            None => String::new(),
        };
        let href_chars = str_chars(href.as_str());
        let (id_chars, slug_chars) = split_id_slug(&href_chars, "/event/");
        match crate::numbers::parse_u32_opt(&id_chars) {
            Some(event_id) => {
                let event_slug = chars_to_string(&slug_chars);
                let event_name = dom::select_text(doc, item, &event_name_sel);

                let children = dom::child_elements(doc, item);
                let year = if children.len() > 0 {
                    joined_text(doc, children[children.len() - 1], "")
                } else {
                    String::new()
                };

                let stage_placement = {
                    let nodes = dom::select_within(doc, item, &series_sel);
                    if nodes.len() > 0 {
                        joined_text(doc, nodes[0], " ")
                    } else {
                        String::new()
                    }
                };
                let prize_nodes = dom::select_within(doc, item, &prize_sel);
                let mut prize: Option<String> = None;
                let mut pz: usize = 0;
                while pz < prize_nodes.len()
                    decreases prize_nodes@.len() - pz,
                {
                    if prize.is_none() {
                        match dom::node_attr(doc, prize_nodes[pz], "style") {
                            Some(style) => {
                                let style_chars = str_chars(style.as_str());
                                if chars_contain(&style_chars, "font-weight") {
                                    let p = joined_text(doc, prize_nodes[pz], "");
                                    if !p.as_str().is_empty() {
                                        prize = Some(p);
                                    }
                                }
                            },
                            None => {},
                        }
                    }
                    pz = pz + 1;
                }

                let mut entries: Vec<PlacementEntry> = Vec::new();
                entries.push(build_team_placement(stage_placement, prize));
                placements.push(
                    EventPlacement {
                        event_id,
                        event_slug,
                        event_href: href,
                        event_name,
                        placements: entries,
                        year,
                    },
                );
            },
            None => {},
        }
        i = i + 1;
    }
    Ok((placements, total_winnings))
}

/// Assemble one transaction from its extracted cell values: a date
/// cell reading `"Unknown"`, an empty one, or one that fails the
/// history date format carries an absent date; a missing player link
/// leaves id 0 with an empty slug and alias; everything else passes
/// through. The player link is its address and the link's text.
pub fn build_transaction(
    date_text: &str,
    action: String,
    player_link: Option<(String, String)>,
    player_real_name: Option<String>,
    player_country_code: Option<String>,
    position: String,
    reference_url: Option<String>,
) -> (r: TeamTransaction)
    ensures
        ({
            let dt = date_text@;
            if dt == "Unknown"@ || dt.len() == 0 {
                r.date is None
            } else {
                match date_from_text(dt, "%Y/%m/%d"@) {
                    Some(d) => r.date matches Some(c) && c.year == d.0 && c.month == d.1
                        && c.day == d.2,
                    None => r.date is None,
                }
            }
        }),
        r.action == action,
        match player_link {
            Some(link) => {
                let parts = href_id_slug(link.0@, "/player/"@);
                r.player_id == u32_or_zero(parts.0) && r.player_slug@ == parts.1
                    && r.player_alias == link.1
            },
            None => r.player_id == 0 && r.player_slug@.len() == 0 && r.player_alias@.len() == 0,
        },
        r.player_real_name == player_real_name,
        r.player_country_code == player_country_code,
        r.position == position,
        r.reference_url == reference_url,
{
    let date_chars = str_chars(date_text);
    let date = if chars_eq_str(&date_chars, "Unknown") || date_chars.len() == 0 {
        None
    } else {
        parse_date(date_text, "%Y/%m/%d")
    };
    let (player_id, player_slug, player_alias) = match player_link {
        Some(link) => {
            let href_chars = str_chars(link.0.as_str());
            let (id_chars, slug_chars) = split_id_slug(&href_chars, "/player/");
            let id = crate::numbers::parse_u32_default(&id_chars);
            (id, chars_to_string(&slug_chars), link.1)
        },
        None => (0, String::new(), String::new()),
    };
    TeamTransaction {
        date,
        action,
        player_id,
        player_slug,
        player_alias,
        player_real_name,
        player_country_code,
        position,
        reference_url,
    }
}

/// Parse one transaction row: read its cells and hand the values to
/// [`build_transaction`].
fn parse_transaction_row(doc: &scraper::Html, row: ego_tree::NodeId) -> Result<
    TeamTransaction,
    VlrError,
> {
    let td_sel = compile("td")?;
    let tds = dom::select_within(doc, row, &td_sel);

    let date_text = if tds.len() > 0 {
        joined_text(doc, tds[0], "")
    } else {
        String::new()
    };

    let action_sel = compile("td.txn-item-action")?;
    let action = {
        let nodes = dom::select_within(doc, row, &action_sel);
        if nodes.len() > 0 {
            joined_text(doc, nodes[0], "")
        } else {
            String::new()
        }
    };

    let flag_sel = compile("i.flag")?;
    let player_country_code = {
        let flags = dom::select_within(doc, row, &flag_sel);
        if flags.len() == 0 {
            None
        } else {
            let classes = dom::node_classes(doc, flags[0]);
            class_with_prefix(&classes, "mod-")
        }
    };

    let link_sel = compile("a[href^=\"/player/\"]")?;
    let links = dom::select_within(doc, row, &link_sel);
    let player_link: Option<(String, String)> = if links.len() > 0 {
        let href = match dom::node_attr(doc, links[0], "href") {
            Some(h) => h,
            None => String::new(),
        };
        let alias = joined_text(doc, links[0], "");
        Some((href, alias))
    } else {
        None
    };

    let real_name_sel = compile("div.ge-text-light")?;
    let player_real_name = {
        let nodes = dom::select_within(doc, row, &real_name_sel);
        if nodes.len() > 0 {
            nonempty_opt(joined_text(doc, nodes[0], ""))
        } else {
            None
        }
    };

    let position = if tds.len() > 4 {
        joined_text(doc, tds[4], "")
    } else {
        String::new()
    };

    let ref_link_sel = compile("a[href]")?;
    let reference_url = if tds.len() > 0 {
        let ref_links = dom::select_within(doc, tds[tds.len() - 1], &ref_link_sel);
        if ref_links.len() > 0 {
            match dom::node_attr(doc, ref_links[0], "href") {
                Some(h) => {
                    let c = str_chars(h.as_str());
                    let t = trim_chars(&c);
                    if t.len() == 0 {
                        None
                    } else {
                        Some(chars_to_string(&t))
                    }
                },
                None => None,
            }
        } else {
            None
        }
    } else {
        None
    };

    Ok(
        build_transaction(
            date_text.as_str(),
            action,
            player_link,
            player_real_name,
            player_country_code,
            position,
            reference_url,
        ),
    )
}

/// Parse the roster transaction log, row by row in page order.
pub fn parse_transactions(doc: &scraper::Html) -> Result<Vec<TeamTransaction>, VlrError> {
    let row_sel = compile("tr.txn-item")?;
    let rows = dom::select_document(doc, &row_sel);
    let mut out: Vec<TeamTransaction> = Vec::new();
    let mut i: usize = 0;
    while i < rows.len()
        decreases rows@.len() - i,
    {
        let t = parse_transaction_row(doc, rows[i])?;
        out.push(t);
        i = i + 1;
    }
    Ok(out)
}

/// Parse a complete team profile from one overview document. The
/// identity keeps the given id, every roster member carries a
/// non-empty role, and every event placement carries exactly one
/// entry.
pub fn parse_team(doc: &scraper::Html, team_id: u32) -> (r: Result<Team, VlrError>)
    ensures
        r matches Ok(t) ==> {
            &&& t.info.id == team_id
            &&& forall|i: int|
                0 <= i < t.roster@.len() ==> (#[trigger] t.roster@[i]).role@.len() > 0
            &&& forall|i: int|
                0 <= i < t.event_placements@.len() ==> (
                #[trigger] t.event_placements@[i]).placements@.len() == 1
        },
{
    let info = parse_team_header(doc, team_id)?;
    let roster = parse_roster(doc)?;
    let (event_placements, total_winnings) = parse_team_placements(doc)?;
    Ok(Team { info, roster, event_placements, total_winnings })
}

} // verus!
