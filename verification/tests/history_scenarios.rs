//! Fixture scenarios for the match-history cards shared by player and
//! team histories.

use vlr_scraper::match_item::parse_match_items;
use vlr_scraper::player::parse_player_matchlist;

fn history_fixture(href: &str) -> String {
    let mut h = String::new();
    h.push_str("<div id=\"wrapper\"><div class=\"col\">");
    h.push_str(&format!("<a class=\"m-item\" href=\"{href}\">"));
    h.push_str("<div class=\"m-item-thumb\"><img src=\"//img/league.png\"></div>");
    h.push_str("<div class=\"m-item-event\"><div>Champions League</div>Playoffs</div>");
    h.push_str("<div class=\"m-item-team\">");
    h.push_str("<span class=\"m-item-team-name\">Alpha</span>");
    h.push_str("<span class=\"m-item-team-tag\">AL</span></div>");
    h.push_str("<div class=\"m-item-team mod-right\">");
    h.push_str("<span class=\"m-item-team-name\">Beta</span>");
    h.push_str("<span class=\"m-item-team-tag\">BE</span></div>");
    h.push_str("<div class=\"m-item-logo\"><img src=\"/img/a.png\"></div>");
    h.push_str("<div class=\"m-item-logo\"><img src=\"/img/b.png\"></div>");
    h.push_str("<div class=\"m-item-result\"><span>2</span><span>0</span></div>");
    h.push_str("<div class=\"m-item-date\"><div>2025/01/04</div>3:00 PM</div>");
    h.push_str("<div class=\"m-item-vods\"><div class=\"wf-tag\">");
    h.push_str("<span class=\"full\">Map 1</span></div></div>");
    h.push_str("</a></div></div>");
    h
}

#[test]
fn history_card_parses_fully() {
    let doc = scraper::Html::parse_document(&history_fixture("/456/alpha-vs-beta"));
    let items = parse_match_items(&doc).unwrap();
    assert_eq!(items.len(), 1);
    let m = &items[0];
    assert_eq!(m.id, 456);
    assert_eq!(m.slug, "alpha-vs-beta");
    assert_eq!(m.league_icon, "https://img/league.png");
    assert_eq!(m.league_name, "Champions League");
    assert_eq!(m.league_series_name, "Playoffs");
    assert_eq!(m.teams.len(), 2);
    assert_eq!(m.teams[0].name, "Alpha");
    assert_eq!(m.teams[0].tag, "AL");
    assert_eq!(m.teams[0].logo_url, "https://www.vlr.gg/img/a.png");
    assert_eq!(m.teams[0].score, Some(2));
    assert_eq!(m.teams[1].name, "Beta");
    assert_eq!(m.teams[1].score, Some(0));
    assert_eq!(m.vods, vec!["Map 1".to_string()]);
    let start = m.match_start.expect("date and time both parse");
    assert_eq!((start.date.year, start.date.month, start.date.day), (2025, 1, 4));
    assert_eq!((start.time.hour, start.time.minute), (15, 0));
}

#[test]
fn history_card_without_usable_link_fails() {
    let doc = scraper::Html::parse_document(&history_fixture("/nosplit"));
    assert!(parse_match_items(&doc).is_err(), "a link with no slug is structural");
}

#[test]
fn player_history_mirrors_the_shared_card_shape() {
    let doc = scraper::Html::parse_document(&history_fixture("/456/alpha-vs-beta"));
    let items = parse_player_matchlist(&doc).unwrap();
    assert_eq!(items.len(), 1);
    assert_eq!(items[0].id, 456);
    assert_eq!(items[0].teams.len(), 2);
    assert_eq!(items[0].teams[1].tag, "BE");
    assert!(items[0].match_start.is_some());
}
