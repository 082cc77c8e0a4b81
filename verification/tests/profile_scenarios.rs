//! Fixture scenarios for the events page, the player profile and the
//! team profile.

use vlr_scraper::events::{parse_events, parse_events_data, parse_total_pages, EventStatus, EventType};
use vlr_scraper::numbers::Decimal;
use vlr_scraper::player::{parse_agent_stats, parse_player, parse_player_info, parse_teams_section};
use vlr_scraper::team::{parse_roster, parse_team, parse_team_header, parse_transactions};

fn events_fixture() -> String {
    let mut h = String::new();
    h.push_str("<div id=\"wrapper\"><div class=\"events-container\">");
    h.push_str("<div class=\"events-container-col\">");
    h.push_str("<a class=\"event-item\" href=\"/event/321/cool-cup\">");
    h.push_str("<div class=\"event-item-thumb\"><img src=\"//img/icon.png\"></div>");
    h.push_str("<div class=\"event-item-inner\">");
    h.push_str("<div class=\"event-item-title\">Cool Cup</div>");
    h.push_str("<div class=\"event-item-desc-item\">");
    h.push_str("<span class=\"event-item-desc-item-status\">Upcoming</span></div>");
    h.push_str("<div class=\"event-item-desc-item mod-prize\">$10,000</div>");
    h.push_str("<div class=\"event-item-desc-item mod-dates\">Jan 4 - Jan 10</div>");
    h.push_str("<div class=\"event-item-desc-item mod-location\">");
    h.push_str("<i class=\"flag mod-eu\"></i></div>");
    h.push_str("</div></a>");
    h.push_str("<a class=\"event-item\" href=\"/event/broken\">");
    h.push_str("<div class=\"event-item-inner\">");
    h.push_str("<div class=\"event-item-title\">No Id</div></div></a>");
    h.push_str("</div>");
    h.push_str("<div class=\"events-container-col\"></div>");
    h.push_str("</div></div>");
    h
}

#[test]
fn events_have_nonzero_ids_and_known_statuses() {
    let doc = scraper::Html::parse_document(&events_fixture());
    let events = parse_events(&EventType::Upcoming, &doc).unwrap();
    assert_eq!(events.len(), 1, "the card without a numeric id is dropped");
    let e = &events[0];
    assert!(e.id != 0);
    assert_eq!(e.id, 321);
    assert_eq!(e.slug, "cool-cup");
    assert_eq!(e.title, "Cool Cup");
    assert_eq!(e.status, EventStatus::Upcoming);
    assert_eq!(e.region, "eu");
    assert_eq!(e.href, "https://www.vlr.gg/event/321/cool-cup");
    assert_eq!(e.icon_url, "https://img/icon.png");
    assert_eq!(e.price, "$10,000");
    assert_eq!(e.dates, "Jan 4 - Jan 10");
}

#[test]
fn missing_pager_defaults_to_one_page() {
    let doc = scraper::Html::parse_document(&events_fixture());
    assert_eq!(parse_total_pages(EventType::Upcoming, &doc).unwrap(), 1);
    let data = parse_events_data(&doc, EventType::Upcoming, 3).unwrap();
    assert_eq!(data.page, 3);
    assert_eq!(data.total_pages, 1);
    assert_eq!(data.events.len(), 1);
}

fn player_fixture() -> String {
    let mut h = String::new();
    h.push_str("<div id=\"wrapper\">");
    h.push_str("<div class=\"player-header\">");
    h.push_str("<div class=\"wf-avatar\"><img src=\"/img/mimi.png\"></div>");
    h.push_str("<h1 class=\"wf-title\">mimi</h1>");
    h.push_str("<h2 class=\"player-real-name\">Someone Real</h2>");
    h.push_str("<div class=\"ge-text-light\"><i class=\"flag mod-dk\"></i> Denmark</div>");
    h.push_str("<a href=\"https://twitter.com/mimi\">@mimi</a>");
    h.push_str("</div>");
    h.push_str("<h2 class=\"wf-label\">Current Teams</h2>");
    h.push_str("<div class=\"wf-card\">");
    h.push_str("<a class=\"wf-module-item\" href=\"/team/10/alpha\">");
    h.push_str("<img src=\"/img/a.png\">");
    h.push_str("<div style=\"font-weight: 500;\">Alpha</div>");
    h.push_str("<div class=\"ge-text-light\">joined in October 2021</div>");
    h.push_str("</a></div>");
    h.push_str("<table class=\"wf-table\"><tbody><tr>");
    h.push_str("<td><img alt=\"Jett\"></td>");
    h.push_str("<td>(95) 20%</td>");
    h.push_str("<td>400</td><td>1.24</td><td>210.5</td><td>1.08</td><td>140.2</td>");
    h.push_str("<td>72%</td><td>0.85</td><td>0.25</td><td>0.15</td><td>0.12</td>");
    h.push_str("<td>300</td><td>250</td><td>90</td><td>60</td><td>45</td>");
    h.push_str("</tr></tbody></table>");
    h.push_str("<h2 class=\"wf-label\">Latest News</h2>");
    h.push_str("<div class=\"wf-card\">");
    h.push_str("<a class=\"wf-module-item\" href=\"/12345/some-news\">");
    h.push_str("<div style=\"font-weight: 500;\">mimi joins Alpha</div>");
    h.push_str("<div class=\"ge-text-light\">October 2021</div>");
    h.push_str("</a></div>");
    h.push_str("<h2 class=\"wf-label\">Event Placements</h2>");
    h.push_str("<div class=\"wf-card\">");
    h.push_str("<div><span>$50,000</span></div>");
    h.push_str("<a class=\"player-event-item\" href=\"/event/77/cup\">");
    h.push_str("<div>");
    h.push_str("<div class=\"text-of\">Cup</div>");
    h.push_str("<div><span class=\"ge-text-light\">Playoffs \u{2013} 1st</span>");
    h.push_str("<span style=\"font-weight: 700;\">$20,000</span> Alpha</div>");
    h.push_str("</div>");
    h.push_str("<div>2025</div>");
    h.push_str("</a></div>");
    h.push_str("</div>");
    h
}

#[test]
fn full_player_profile_assembles_every_section() {
    let doc = scraper::Html::parse_document(&player_fixture());
    let p = parse_player(&doc, 17323).unwrap();
    assert_eq!(p.info.id, 17323);
    assert_eq!(p.info.name, "mimi");
    assert_eq!(p.current_teams.len(), 1);
    assert!(p.past_teams.is_empty());
    assert_eq!(p.agent_stats.len(), 1);
    assert_eq!(p.news.len(), 1);
    assert_eq!(p.news[0].href, "/12345/some-news");
    assert_eq!(p.news[0].title, "mimi joins Alpha");
    assert_eq!(p.news[0].date, "October 2021");
    assert_eq!(p.total_winnings.as_deref(), Some("$50,000"));
    assert_eq!(p.event_placements.len(), 1);
    let ep = &p.event_placements[0];
    assert_eq!(ep.event_id, 77);
    assert_eq!(ep.event_slug, "cup");
    assert_eq!(ep.event_name, "Cup");
    assert_eq!(ep.year, "2025");
    assert_eq!(ep.placements.len(), 1);
    let entry = &ep.placements[0];
    assert_eq!(entry.stage, "Playoffs");
    assert_eq!(entry.placement, "1st");
    assert_eq!(entry.prize.as_deref(), Some("$20,000"));
    assert_eq!(entry.team_name, "Alpha");
}

#[test]
fn player_header_parses_identity() {
    let doc = scraper::Html::parse_document(&player_fixture());
    let info = parse_player_info(&doc, 17323).unwrap();
    assert_eq!(info.id, 17323);
    assert_eq!(info.name, "mimi");
    assert_eq!(info.real_name.as_deref(), Some("Someone Real"));
    assert_eq!(info.avatar_url.as_deref(), Some("https://www.vlr.gg/img/mimi.png"));
    assert_eq!(info.country.as_deref(), Some("Denmark"));
    assert_eq!(info.country_code.as_deref(), Some("dk"));
    assert_eq!(info.socials.len(), 1);
    assert_eq!(info.socials[0].platform, "twitter");
    assert_eq!(info.socials[0].display_text, "@mimi");
}

#[test]
fn team_sections_follow_their_headings() {
    let doc = scraper::Html::parse_document(&player_fixture());
    let current = parse_teams_section(&doc, "Current Teams").unwrap();
    assert_eq!(current.len(), 1);
    assert_eq!(current[0].id, 10);
    assert_eq!(current[0].slug, "alpha");
    assert_eq!(current[0].name, "Alpha");
    assert_eq!(current[0].logo_url, "https://www.vlr.gg/img/a.png");
    assert_eq!(current[0].info.as_deref(), Some("joined in October 2021"));
    let past = parse_teams_section(&doc, "Past Teams").unwrap();
    assert!(past.is_empty(), "a missing heading yields an empty list");
}

#[test]
fn agent_stats_parse_all_seventeen_columns() {
    let doc = scraper::Html::parse_document(&player_fixture());
    let stats = parse_agent_stats(&doc).unwrap();
    assert_eq!(stats.len(), 1);
    let s = &stats[0];
    assert_eq!(s.agent, "Jett");
    assert_eq!(s.usage_count, 95);
    assert_eq!(s.usage_pct, Decimal { negative: false, mantissa: 20, scale: 2 });
    assert_eq!(s.rounds, 400);
    assert_eq!(s.rating, Decimal { negative: false, mantissa: 124, scale: 2 });
    assert_eq!(s.acs, Decimal { negative: false, mantissa: 2105, scale: 1 });
    assert_eq!(s.kast, Decimal { negative: false, mantissa: 72, scale: 2 });
    assert_eq!(s.kpr, Decimal { negative: false, mantissa: 85, scale: 2 });
    assert_eq!(s.kills, 300);
    assert_eq!(s.first_deaths, 45);
}

fn team_fixture() -> String {
    let mut h = String::new();
    h.push_str("<div id=\"wrapper\">");
    h.push_str("<div class=\"team-header\">");
    h.push_str("<div class=\"team-header-logo\"><img src=\"/img/g.png\"></div>");
    h.push_str("<h1 class=\"wf-title\">G2 Gozen</h1>");
    h.push_str("<h2 class=\"wf-title team-header-tag\">G2G</h2>");
    h.push_str("<div class=\"team-header-country\"><i class=\"flag mod-eu\"></i> Europe</div>");
    h.push_str("<div class=\"team-header-links\">");
    h.push_str("<a href=\"https://twitter.com/g2\">@g2</a></div>");
    h.push_str("</div>");
    h.push_str("<div class=\"team-roster-item\">");
    h.push_str("<a href=\"/player/17323/mimi\">");
    h.push_str("<div class=\"team-roster-item-img\"><img src=\"/img/mimi.png\"></div>");
    h.push_str("<div class=\"team-roster-item-name-alias\">");
    h.push_str("<i class=\"flag mod-dk\"></i>mimi<i class=\"fa-star\"></i></div>");
    h.push_str("<div class=\"team-roster-item-name-real\">Someone Real</div>");
    h.push_str("</a></div>");
    h.push_str("<div class=\"team-roster-item\">");
    h.push_str("<a href=\"/player/555/coach\">");
    h.push_str("<div class=\"team-roster-item-name-alias\">coach</div>");
    h.push_str("<div class=\"team-roster-item-name-role\">manager</div>");
    h.push_str("</a></div>");
    h.push_str("<div class=\"wf-module-label\">Total Winnings</div>");
    h.push_str("<span>$250,000</span>");
    h.push_str("<a class=\"team-event-item\" href=\"/event/77/cup\">");
    h.push_str("<div class=\"text-of\">Cup</div>");
    h.push_str("<span class=\"team-event-item-series\">Playoffs \u{2013} 1st</span>");
    h.push_str("<span style=\"font-weight: 700;\">$100,000</span>");
    h.push_str("<div>2025</div></a>");
    h.push_str("<table><tbody>");
    h.push_str("<tr class=\"txn-item\"><td>2025/01/04</td>");
    h.push_str("<td class=\"txn-item-action\">join</td>");
    h.push_str("<td><a href=\"/player/17323/mimi\">mimi</a></td>");
    h.push_str("<td><div class=\"ge-text-light\">Someone Real</div></td>");
    h.push_str("<td>player</td>");
    h.push_str("<td><a href=\"https://example.org/news\">src</a></td></tr>");
    h.push_str("<tr class=\"txn-item\"><td>Unknown</td>");
    h.push_str("<td class=\"txn-item-action\">leave</td>");
    h.push_str("<td><a href=\"/player/555/coach\">coach</a></td>");
    h.push_str("<td></td><td>manager</td><td></td></tr>");
    h.push_str("</tbody></table>");
    h.push_str("</div>");
    h
}

#[test]
fn team_header_and_roster_parse() {
    let doc = scraper::Html::parse_document(&team_fixture());
    let info = parse_team_header(&doc, 6530).unwrap();
    assert_eq!(info.id, 6530);
    assert_eq!(info.name, "G2 Gozen");
    assert_eq!(info.tag.as_deref(), Some("G2G"));
    assert_eq!(info.country.as_deref(), Some("Europe"));
    assert_eq!(info.country_code.as_deref(), Some("eu"));
    assert_eq!(info.socials.len(), 1);

    let roster = parse_roster(&doc).unwrap();
    assert_eq!(roster.len(), 2);
    assert_eq!(roster[0].id, 17323);
    assert_eq!(roster[0].alias, "mimi");
    assert_eq!(roster[0].role, "player", "a missing role text defaults to player");
    assert!(roster[0].is_captain);
    assert_eq!(roster[0].real_name.as_deref(), Some("Someone Real"));
    assert_eq!(roster[0].country_code.as_deref(), Some("dk"));
    assert_eq!(roster[1].role, "manager");
    assert!(!roster[1].is_captain);
}

#[test]
fn team_profile_collects_placements_and_winnings() {
    let doc = scraper::Html::parse_document(&team_fixture());
    let team = parse_team(&doc, 6530).unwrap();
    assert_eq!(team.info.id, 6530);
    assert_eq!(team.total_winnings.as_deref(), Some("$250,000"));
    assert_eq!(team.event_placements.len(), 1);
    let p = &team.event_placements[0];
    assert_eq!(p.event_id, 77);
    assert_eq!(p.event_name, "Cup");
    assert_eq!(p.year, "2025");
    assert_eq!(p.placements.len(), 1);
    assert_eq!(p.placements[0].stage, "Playoffs");
    assert_eq!(p.placements[0].placement, "1st");
    assert_eq!(p.placements[0].prize.as_deref(), Some("$100,000"));
}

#[test]
fn transactions_keep_order_and_tolerate_unknown_dates() {
    let doc = scraper::Html::parse_document(&team_fixture());
    let txns = parse_transactions(&doc).unwrap();
    assert_eq!(txns.len(), 2);
    let first = &txns[0];
    let d = first.date.expect("a dated row carries its date");
    assert_eq!((d.year, d.month, d.day), (2025, 1, 4));
    assert_eq!(first.action, "join");
    assert_eq!(first.player_id, 17323);
    assert_eq!(first.player_alias, "mimi");
    assert_eq!(first.position, "player");
    assert_eq!(first.reference_url.as_deref(), Some("https://example.org/news"));
    let second = &txns[1];
    assert!(second.date.is_none(), "an Unknown date cell is absent, not an error");
    assert_eq!(second.action, "leave");
    assert_eq!(second.player_id, 555);
}

#[test]
fn event_card_with_zero_id_is_dropped() {
    let mut h = String::new();
    h.push_str("<div id=\"wrapper\"><div class=\"events-container\">");
    h.push_str("<div class=\"events-container-col\">");
    h.push_str("<a class=\"event-item\" href=\"/event/0/zero\">");
    h.push_str("<div class=\"event-item-inner\">");
    h.push_str("<div class=\"event-item-title\">Zero</div></div></a>");
    h.push_str("</div><div class=\"events-container-col\"></div>");
    h.push_str("</div></div>");
    let doc = scraper::Html::parse_document(&h);
    let events = parse_events(&EventType::Upcoming, &doc).unwrap();
    assert!(events.is_empty(), "an id of zero never reaches the result");
}

#[test]
fn pager_labels_yield_the_last_count() {
    let mut h = String::new();
    h.push_str("<div id=\"wrapper\"><div class=\"action-container\">");
    h.push_str("<div class=\"action-container-pages\">");
    h.push_str("<span>1</span><a>2</a><a>5</a></div>");
    h.push_str("</div></div>");
    let doc = scraper::Html::parse_document(&h);
    assert_eq!(parse_total_pages(EventType::Upcoming, &doc).unwrap(), 5);
}
