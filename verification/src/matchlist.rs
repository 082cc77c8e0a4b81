//! The match-list parser.
//!
//! A match-list page renders large date labels interleaved with match
//! items: a label applies to every following item until the next label.
//! The scan is an explicit fold over the ordered row sequence, with the
//! date in force as its accumulator; its full behaviour is stated in the
//! contract of [`assemble_match_list`].

use vstd::prelude::*;
use vstd::string::*;

use crate::dates::{date_from_text, parse_date, parse_time, time_from_text, CalendarDate, DateTime};
use crate::dom;
use crate::error::VlrError;
use crate::numbers::{is_unsigned_text, parse_u8_opt, parse_u32_opt, unsigned_value};
use crate::text::{chars_to_string, clone_strings, str_chars};
use crate::utils::href_id_slug;

verus! {

/// Team info as shown in a match list entry.
#[derive(Debug, Clone)]
pub struct MatchListTeam {
    pub name: String,
    pub is_winner: bool,
    pub score: Option<u8>,
}

/// Summary information for a single match within an event.
#[derive(Debug, Clone)]
pub struct MatchListItem {
    pub id: u32,
    pub slug: String,
    pub href: String,
    pub date_time: Option<DateTime>,
    pub teams: Vec<MatchListTeam>,
    pub tags: Vec<String>,
    pub event_text: String,
    pub event_series_text: String,
}

/// A team sub-element as read off the page, before any value parsing.
#[derive(Debug, Clone)]
pub struct RawMatchTeam {
    pub name: String,
    pub is_winner: bool,
    pub score_text: String,
}

/// A match item as read off the page, before any value parsing.
#[derive(Debug, Clone)]
pub struct RawMatchItem {
    pub href: String,
    pub time_text: String,
    pub teams: Vec<RawMatchTeam>,
    pub tags: Vec<String>,
    pub event_text: String,
    pub event_series_text: String,
}

/// One row of the interleaved scan: a date label or a match item, in
/// document order.
#[derive(Debug, Clone)]
pub enum MatchListRow {
    DateLabel(String),
    Item(RawMatchItem),
}

/// The date a label parses to: the primary format first, then the
/// abbreviated-month fallback.
pub open spec fn label_date(t: Seq<char>) -> Option<(int, int, int)> {
    match date_from_text(t, "%a, %B %e, %Y"@) {
        Some(d) => Some(d),
        None => date_from_text(t, "%a, %b %e, %Y"@),
    }
}

/// A row the scan accepts: a label that parses as a date, or an item
/// whose link yields a numeric id.
pub open spec fn row_ok(row: MatchListRow) -> bool {
    match row {
        MatchListRow::DateLabel(t) => label_date(t@) is Some,
        MatchListRow::Item(raw) => {
            let idp = href_id_slug(raw.href@, "/"@).0;
            is_unsigned_text(idp) && unsigned_value(idp) <= u32::MAX
        },
    }
}

/// The date in force after the first `i` rows: the date of the latest
/// preceding label, absent before the first label.
pub open spec fn current_date(rows: Seq<MatchListRow>, i: int) -> Option<(int, int, int)>
    decreases i,
{
    if i <= 0 {
        None
    } else {
        match rows[i - 1] {
            MatchListRow::DateLabel(t) => label_date(t@),
            MatchListRow::Item(_) => current_date(rows, i - 1),
        }
    }
}

/// How many of the first `i` rows are match items.
pub open spec fn item_count(rows: Seq<MatchListRow>, i: int) -> int
    decreases i,
{
    if i <= 0 {
        0
    } else {
        item_count(rows, i - 1) + if rows[i - 1] is Item {
            1int
        } else {
            0int
        }
    }
}

/// Law: the date in force at a row is the date of the latest label
/// before it. Where `rows[l]` is a date label and no later label stands
/// before row `i`, the scan's date at `i` is that label's parsed date.
pub proof fn lemma_current_date_is_last_label(rows: Seq<MatchListRow>, l: int, i: int)
    requires
        0 <= l < i <= rows.len(),
        rows[l] is DateLabel,
        forall|m: int| l < m < i ==> !((#[trigger] rows[m]) is DateLabel),
    ensures
        current_date(rows, i) == label_date(rows[l]->DateLabel_0@),
    decreases i,
{
    if i - 1 > l {
        assert(!(rows[i - 1] is DateLabel));
        lemma_current_date_is_last_label(rows, l, i - 1);
    }
}

/// Law: before the first date label the scan holds no date at all.
pub proof fn lemma_current_date_absent_without_label(rows: Seq<MatchListRow>, i: int)
    requires
        0 <= i <= rows.len(),
        forall|m: int| 0 <= m < i ==> !((#[trigger] rows[m]) is DateLabel),
    ensures
        current_date(rows, i) is None,
    decreases i,
{
    if i > 0 {
        lemma_current_date_absent_without_label(rows, i - 1);
    }
}

/// A parsed optional score agrees with its cell text: the value exactly
/// when the text is an unsigned number in range, absent otherwise.
pub open spec fn score_matches(sc: Option<u8>, text: Seq<char>) -> bool {
    if is_unsigned_text(text) && unsigned_value(text) <= u8::MAX {
        sc matches Some(v) && v == unsigned_value(text)
    } else {
        sc is None
    }
}

pub open spec fn team_matches(t: MatchListTeam, raw: RawMatchTeam) -> bool {
    &&& t.name@ == raw.name@
    &&& t.is_winner == raw.is_winner
    &&& score_matches(t.score, raw.score_text@)
}

/// A parsed optional date-time agrees with the date in force and the
/// item's own time text: present exactly when both are.
pub open spec fn date_time_matches(
    dt: Option<DateTime>,
    date: Option<(int, int, int)>,
    time_text: Seq<char>,
) -> bool {
    match (date, time_from_text(time_text, "%I:%M %p"@)) {
        (Some(d), Some(t)) => dt matches Some(x) && x.date.year == d.0 && x.date.month == d.1
            && x.date.day == d.2 && x.time.hour == t.0 && x.time.minute == t.1 && x.time.second
            == t.2,
        _ => dt is None,
    }
}

/// A finished match-list entry agrees with its raw row and the date in
/// force where the row stood.
pub open spec fn item_matches(
    m: MatchListItem,
    raw: RawMatchItem,
    date: Option<(int, int, int)>,
) -> bool {
    let parts = href_id_slug(raw.href@, "/"@);
    &&& m.id == unsigned_value(parts.0)
    &&& m.slug@ == parts.1
    &&& m.href@ == "https://www.vlr.gg"@ + raw.href@
    &&& date_time_matches(m.date_time, date, raw.time_text@)
    &&& if raw.teams@.len() >= 2 {
        m.teams@.len() == 2 && team_matches(m.teams@[0], raw.teams@[0]) && team_matches(
            m.teams@[1],
            raw.teams@[1],
        )
    } else {
        m.teams@.len() == 0
    }
    &&& m.tags@ == raw.tags@
    &&& m.event_text@ == raw.event_text@
    &&& m.event_series_text@ == raw.event_series_text@
}

/// A held date agrees with the spec-level date in force.
pub open spec fn date_opt_matches(cur: Option<CalendarDate>, d: Option<(int, int, int)>) -> bool {
    match (cur, d) {
        (Some(c), Some(t)) => c.year == t.0 && c.month == t.1 && c.day == t.2,
        (None, None) => true,
        _ => false,
    }
}

/// The j-th entry comes from some item row: the row at which j item
/// rows had gone before, under the date the latest preceding label set
/// there.
pub open spec fn entry_has_row(items: Seq<MatchListItem>, rows: Seq<MatchListRow>, j: int) -> bool {
    exists|k: int|
        #![trigger item_count(rows, k)]
        {
            &&& 0 <= k < rows.len()
            &&& item_count(rows, k) == j
            &&& rows[k] is Item
            &&& item_matches(items[j], rows[k]->Item_0, current_date(rows, k))
        }
}

/// Every finished entry agrees with its item row.
pub open spec fn entries_match_rows(items: Seq<MatchListItem>, rows: Seq<MatchListRow>) -> bool {
    forall|j: int| 0 <= j < items.len() ==> #[trigger] entry_has_row(items, rows, j)
}

fn team_from_raw(rt: &RawMatchTeam) -> (t: MatchListTeam)
    ensures
        team_matches(t, *rt),
{
    let sc = str_chars(rt.score_text.as_str());
    let score = parse_u8_opt(&sc);
    MatchListTeam { name: rt.name.clone(), is_winner: rt.is_winner, score }
}

/// The scan itself: fold the ordered rows into match-list entries.
///
/// On success every row was accepted, the entry count equals the number
/// of item rows, and each entry agrees with its row under the date the
/// latest preceding label set. The scan fails exactly when some label
/// does not parse as a date or some item link has no numeric id; a label
/// that fails is the page's fault and propagates, per the error policy.
pub fn assemble_match_list(rows: &Vec<MatchListRow>) -> (r: Result<Vec<MatchListItem>, VlrError>)
    ensures
        match r {
            Ok(items) => {
                &&& forall|k: int| 0 <= k < rows@.len() ==> row_ok(#[trigger] rows@[k])
                &&& items@.len() == item_count(rows@, rows@.len() as int)
                &&& entries_match_rows(items@, rows@)
            },
            Err(_) => exists|k: int| 0 <= k < rows@.len() && !row_ok(#[trigger] rows@[k]),
        },
{
    let mut items: Vec<MatchListItem> = Vec::new();
    let mut cur: Option<CalendarDate> = None;
    let mut i: usize = 0;
    while i < rows.len()
        invariant
            i <= rows@.len(),
            forall|k: int| 0 <= k < i ==> row_ok(#[trigger] rows@[k]),
            items@.len() == item_count(rows@, i as int),
            date_opt_matches(cur, current_date(rows@, i as int)),
            entries_match_rows(items@, rows@),
        decreases rows@.len() - i,
    {
        let row = &rows[i];
        match row {
            MatchListRow::DateLabel(t) => {
                let d = match parse_date(t.as_str(), "%a, %B %e, %Y") {
                    Some(d) => Some(d),
                    None => parse_date(t.as_str(), "%a, %b %e, %Y"),
                };
                match d {
                    Some(d) => {
                        cur = Some(d);
                        proof {
                            assert(rows@[i as int] is DateLabel);
                            assert(current_date(rows@, i as int + 1) == label_date(
                                rows@[i as int]->DateLabel_0@,
                            ));
                        }
                    },
                    None => {
                        proof {
                            assert(!row_ok(rows@[i as int]));
                        }
                        return Err(VlrError::DateParse(t.clone()));
                    },
                }
            },
            MatchListRow::Item(raw) => {
                let href_chars = str_chars(raw.href.as_str());
                let (id_chars, slug_chars) = crate::utils::split_id_slug(&href_chars, "/");
                let id = match parse_u32_opt(&id_chars) {
                    Some(id) => id,
                    None => {
                        proof {
                            assert(!row_ok(rows@[i as int]));
                        }
                        return Err(VlrError::IntParse(chars_to_string(&id_chars)));
                    },
                };
                let slug = chars_to_string(&slug_chars);
                let mut href_full = String::from_str("https://www.vlr.gg");
                href_full.append(raw.href.as_str());
                let time = parse_time(raw.time_text.as_str(), "%I:%M %p");
                let date_time = match (cur, time) {
                    (Some(d), Some(t)) => Some(DateTime { date: d, time: t }),
                    _ => None,
                };
                let mut teams: Vec<MatchListTeam> = Vec::new();
                if raw.teams.len() >= 2 {
                    teams.push(team_from_raw(&raw.teams[0]));
                    teams.push(team_from_raw(&raw.teams[1]));
                }
                let item = MatchListItem {
                    id,
                    slug,
                    href: href_full,
                    date_time,
                    teams,
                    tags: clone_strings(&raw.tags),
                    event_text: raw.event_text.clone(),
                    event_series_text: raw.event_series_text.clone(),
                };
                proof {
                    assert(item_matches(item, *raw, current_date(rows@, i as int)));
                }
                proof {
                    assert(rows@[i as int] is Item);
                    assert(current_date(rows@, i as int + 1) == current_date(rows@, i as int));
                }
                let ghost old_items = items@;
                items.push(item);
                proof {
                    let j = items@.len() - 1;
                    assert(entries_match_rows(items@, rows@)) by {
                        assert forall|jj: int|
                            0 <= jj < items@.len() implies #[trigger] entry_has_row(
                            items@,
                            rows@,
                            jj,
                        ) by {
                            if jj < j {
                                assert(entry_has_row(old_items, rows@, jj));
                                let k = choose|k: int|
                                    #![trigger item_count(rows@, k)]
                                    {
                                        &&& 0 <= k < rows@.len()
                                        &&& item_count(rows@, k) == jj
                                        &&& rows@[k] is Item
                                        &&& item_matches(
                                            old_items[jj],
                                            rows@[k]->Item_0,
                                            current_date(rows@, k),
                                        )
                                    };
                                assert(items@[jj] == old_items[jj]);
                                assert(item_matches(
                                    items@[jj],
                                    rows@[k]->Item_0,
                                    current_date(rows@, k),
                                ));
                            } else {
                                assert(items@[j] == item);
                                assert(item_count(rows@, i as int) == j);
                                assert(rows@[i as int] is Item);
                                assert(item_matches(
                                    items@[j],
                                    rows@[i as int]->Item_0,
                                    current_date(rows@, i as int),
                                ));
                            }
                        }
                    }
                }
            },
        }
        i = i + 1;
    }
    Ok(items)
}

fn compile(expr: &str) -> Result<scraper::Selector, VlrError> {
    match dom::compile_selector(expr) {
        Some(sel) => Ok(sel),
        None => Err(VlrError::Selector(String::from_str(expr))),
    }
}

/// Read the interleaved date labels and match items off the page, in
/// document order. A label with no text at all is passed over, as the
/// scan it feeds would pass over it.
fn collect_match_rows(doc: &scraper::Html) -> Result<Vec<MatchListRow>, VlrError> {
    let sel = compile("div#wrapper :is(div.wf-label.mod-large,div.wf-card a.match-item)")?;
    let time_sel = compile("div.match-item-time")?;
    let teams_sel = compile("div.match-item-vs div.match-item-vs-team")?;
    let name_sel = compile("div.match-item-vs-team-name div.text-of")?;
    let score_sel = compile("div.match-item-vs-team-score")?;
    let tags_sel = compile("div.match-item-vod div.wf-tag")?;
    let event_sel = compile("div.match-item-event.text-of")?;
    let series_sel = compile("div.match-item-event.text-of div.match-item-event-series.text-of")?;

    let nodes = dom::select_document(doc, &sel);
    let mut rows: Vec<MatchListRow> = Vec::new();
    let mut i: usize = 0;
    while i < nodes.len()
        decreases nodes@.len() - i,
    {
        let node = nodes[i];
        let classes = dom::node_classes(doc, node);
        if crate::text::list_has_str(&classes, "wf-label") {
            let texts = dom::node_texts(doc, node);
            if texts.len() > 0 {
                rows.push(MatchListRow::DateLabel(dom::first_text_of(&texts)));
            }
        } else {
            let href = match dom::node_attr(doc, node, "href") {
                Some(h) => h,
                None => String::new(),
            };
            let time_text = dom::select_text(doc, node, &time_sel);

            let team_nodes = dom::select_within(doc, node, &teams_sel);
            let mut teams: Vec<RawMatchTeam> = Vec::new();
            let mut k: usize = 0;
            while k < team_nodes.len()
                decreases team_nodes@.len() - k,
            {
                let tn = team_nodes[k];
                let tclasses = dom::node_classes(doc, tn);
                let is_winner = crate::text::list_has_str(&tclasses, "mod-winner");
                let name = dom::select_text(doc, tn, &name_sel);
                let score_text = dom::select_text(doc, tn, &score_sel);
                teams.push(RawMatchTeam { name, is_winner, score_text });
                k = k + 1;
            }

            let tag_nodes = dom::select_within(doc, node, &tags_sel);
            let mut tags: Vec<String> = Vec::new();
            let mut k2: usize = 0;
            while k2 < tag_nodes.len()
                decreases tag_nodes@.len() - k2,
            {
                let texts = dom::node_texts(doc, tag_nodes[k2]);
                if texts.len() > 0 {
                    tags.push(dom::last_text_trimmed_of(&texts));
                }
                k2 = k2 + 1;
            }

            let event_nodes = dom::select_within(doc, node, &event_sel);
            let event_text = if event_nodes.len() > 0 {
                let texts = dom::node_texts(doc, event_nodes[event_nodes.len() - 1]);
                dom::last_text_trimmed_of(&texts)
            } else {
                String::new()
            };
            let event_series_text = dom::select_text(doc, node, &series_sel);

            rows.push(
                MatchListRow::Item(
                    RawMatchItem { href, time_text, teams, tags, event_text, event_series_text },
                ),
            );
        }
        i = i + 1;
    }
    Ok(rows)
}

/// Parse a match-list page: scan its date labels and match items in
/// document order and fold them into entries.
///
/// Whatever the document holds, every returned entry has either exactly
/// two team summaries or none.
pub fn parse_matches(doc: &scraper::Html) -> (r: Result<Vec<MatchListItem>, VlrError>)
    ensures
        r matches Ok(items) ==> forall|j: int|
            0 <= j < items@.len() ==> (#[trigger] items@[j].teams@.len() == 0
                || items@[j].teams@.len() == 2),
{
    let rows = collect_match_rows(doc)?;
    let result = assemble_match_list(&rows);
    proof {
        if let Ok(items) = &result {
            assert forall|j: int|
                0 <= j < items@.len() implies (#[trigger] items@[j].teams@.len() == 0
                || items@[j].teams@.len() == 2) by {
                assert(entry_has_row(items@, rows@, j));
                let k = choose|k: int|
                    #![trigger item_count(rows@, k)]
                    {
                        &&& 0 <= k < rows@.len()
                        &&& item_count(rows@, k) == j
                        &&& rows@[k] is Item
                        &&& item_matches(items@[j], rows@[k]->Item_0, current_date(rows@, k))
                    };
            }
        }
    }
    result
}

} // verus!
