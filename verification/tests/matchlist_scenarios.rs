//! End-to-end match-list scenarios over fixture documents, and direct
//! checks of the date-propagating scan.

use vlr_scraper::error::VlrError;
use vlr_scraper::matchlist::{
    assemble_match_list, parse_matches, MatchListRow, RawMatchItem, RawMatchTeam,
};

fn fixture() -> String {
    let mut h = String::new();
    h.push_str("<div id=\"wrapper\">");
    h.push_str("<div class=\"wf-label mod-large\">\u{a0}Sat, Jan 4, 2025 </div>");
    h.push_str("<div class=\"wf-card\">");
    h.push_str("<a class=\"match-item\" href=\"/123/team-a-vs-team-b\">");
    h.push_str("<div class=\"match-item-time\">3:00 PM</div>");
    h.push_str("<div class=\"match-item-vs\">");
    h.push_str("<div class=\"match-item-vs-team mod-winner\">");
    h.push_str("<div class=\"match-item-vs-team-name\"><div class=\"text-of\">Team A</div></div>");
    h.push_str("<div class=\"match-item-vs-team-score\">2</div></div>");
    h.push_str("<div class=\"match-item-vs-team\">");
    h.push_str("<div class=\"match-item-vs-team-name\"><div class=\"text-of\">Team B</div></div>");
    h.push_str("<div class=\"match-item-vs-team-score\">1</div></div>");
    h.push_str("</div>");
    h.push_str("<div class=\"match-item-event text-of\">");
    h.push_str("<div class=\"match-item-event-series text-of\">Group A</div>");
    h.push_str("Champions Tour</div>");
    h.push_str("<div class=\"match-item-vod\"><div class=\"wf-tag\">VOD</div></div>");
    h.push_str("</a>");
    h.push_str("<a class=\"match-item\" href=\"/124/team-c-vs-team-d\">");
    h.push_str("<div class=\"match-item-time\">TBD</div>");
    h.push_str("</a>");
    h.push_str("</div></div>");
    h
}

#[test]
fn match_list_propagates_label_date() {
    let doc = scraper::Html::parse_document(&fixture());
    let items = parse_matches(&doc).unwrap();
    assert_eq!(items.len(), 2);

    let first = &items[0];
    assert_eq!(first.id, 123);
    assert_eq!(first.slug, "team-a-vs-team-b");
    assert_eq!(first.href, "https://www.vlr.gg/123/team-a-vs-team-b");
    let dt = first.date_time.expect("first item should carry the label date");
    assert_eq!(dt.date.year, 2025);
    assert_eq!(dt.date.month, 1);
    assert_eq!(dt.date.day, 4);
    assert_eq!(dt.time.hour, 15);
    assert_eq!(dt.time.minute, 0);
    assert_eq!(dt.time.second, 0);
    assert_eq!(first.teams.len(), 2);
    assert_eq!(first.teams[0].name, "Team A");
    assert!(first.teams[0].is_winner);
    assert_eq!(first.teams[0].score, Some(2));
    assert_eq!(first.teams[1].name, "Team B");
    assert!(!first.teams[1].is_winner);
    assert_eq!(first.teams[1].score, Some(1));
    assert_eq!(first.tags, vec!["VOD".to_string()]);
    assert_eq!(first.event_text, "Champions Tour");
    assert_eq!(first.event_series_text, "Group A");

    let second = &items[1];
    assert_eq!(second.id, 124);
    assert!(second.date_time.is_none(), "unparsable time leaves the date absent");
    assert_eq!(second.teams.len(), 0);
}

fn raw_item(href: &str, time: &str) -> MatchListRow {
    MatchListRow::Item(RawMatchItem {
        href: href.to_string(),
        time_text: time.to_string(),
        teams: vec![
            RawMatchTeam {
                name: "X".to_string(),
                is_winner: false,
                score_text: "0".to_string(),
            },
            RawMatchTeam {
                name: "Y".to_string(),
                is_winner: true,
                score_text: "2".to_string(),
            },
        ],
        tags: Vec::new(),
        event_text: String::new(),
        event_series_text: String::new(),
    })
}

#[test]
fn scan_counts_items_and_carries_latest_label() {
    let rows = vec![
        MatchListRow::DateLabel("Sat, Jan 4, 2025".to_string()),
        raw_item("/1/a", "1:00 PM"),
        raw_item("/2/b", "2:00 PM"),
        MatchListRow::DateLabel("Sun, Jan 5, 2025".to_string()),
        raw_item("/3/c", "11:00 AM"),
    ];
    let items = assemble_match_list(&rows).unwrap();
    assert_eq!(items.len(), 3);
    assert_eq!(items[0].date_time.unwrap().date.day, 4);
    assert_eq!(items[1].date_time.unwrap().date.day, 4);
    assert_eq!(items[2].date_time.unwrap().date.day, 5);
    assert_eq!(items[2].date_time.unwrap().time.hour, 11);
}

#[test]
fn scan_accepts_full_month_primary_format() {
    let rows = vec![
        MatchListRow::DateLabel("Sat, January 4, 2025".to_string()),
        raw_item("/1/a", "1:00 PM"),
    ];
    let items = assemble_match_list(&rows).unwrap();
    assert_eq!(items[0].date_time.unwrap().date.month, 1);
}

#[test]
fn scan_fails_on_bad_label() {
    let rows = vec![
        MatchListRow::DateLabel("not a date".to_string()),
        raw_item("/1/a", "1:00 PM"),
    ];
    assert!(assemble_match_list(&rows).is_err());
}

#[test]
fn scan_fails_on_bad_item_id() {
    let rows = vec![
        MatchListRow::DateLabel("Sat, Jan 4, 2025".to_string()),
        raw_item("/abc/a", "1:00 PM"),
    ];
    assert!(assemble_match_list(&rows).is_err());
}

#[test]
fn item_before_any_label_has_no_date() {
    let rows = vec![raw_item("/9/z", "1:00 PM")];
    let items = assemble_match_list(&rows).unwrap();
    assert_eq!(items.len(), 1);
    assert!(items[0].date_time.is_none());
}

#[test]
fn scan_errors_name_their_cause() {
    let bad_label = vec![MatchListRow::DateLabel("garbage".to_string())];
    assert!(matches!(assemble_match_list(&bad_label), Err(VlrError::DateParse(_))));
    let bad_id = vec![raw_item("/x/y", "1:00 PM")];
    assert!(matches!(assemble_match_list(&bad_id), Err(VlrError::IntParse(_))));
}
