//! End-to-end match-detail scenarios over fixture documents: header
//! zipping, rounds, player stat lines, and the best-effort tabs.

use vlr_scraper::match_page::parse_match_detail;
use vlr_scraper::match_stats::{build_player_name_map, name_map_get};
use vlr_scraper::numbers::Decimal;

fn main_fixture() -> String {
    let mut h = String::new();
    h.push_str("<div class=\"col mod-3\">");
    h.push_str("<div class=\"match-header\">");
    h.push_str("<div class=\"match-header-super\">");
    h.push_str("<a class=\"match-header-event\" href=\"/event/77/cup\">");
    h.push_str("<img src=\"/img/event.png\">");
    h.push_str("<div><div>Cup Title</div>");
    h.push_str("<div class=\"match-header-event-series\">Grand Final</div></div></a>");
    h.push_str("<div class=\"match-header-date\">");
    h.push_str("<div class=\"moment-tz-convert\" data-utc-ts=\"2025-01-04 18:00:00\">Jan 4</div>");
    h.push_str("<div>Showmatch</div>");
    h.push_str("<div>Patch 9.11</div>");
    h.push_str("</div></div>");
    h.push_str("<div class=\"match-header-vs\">");
    h.push_str("<a class=\"match-header-link\" href=\"/team/10/alpha\">");
    h.push_str("<img src=\"/img/a.png\"><div class=\"wf-title-med\">Alpha</div></a>");
    h.push_str("<a class=\"match-header-link\" href=\"/team/20/beta\">");
    h.push_str("<img src=\"/img/b.png\"><div class=\"wf-title-med\">Beta</div></a>");
    h.push_str("<div class=\"match-header-vs-score\"><div class=\"match-header-vs-score\">");
    h.push_str("<span>2</span><span class=\"match-header-vs-score-colon\">:</span><span>1</span>");
    h.push_str("</div></div></div>");
    h.push_str("<div class=\"match-header-vs-note\">final</div>");
    h.push_str("<div class=\"match-header-vs-note\">Bo3</div>");
    h.push_str("</div>");
    h.push_str("<div class=\"vm-stats\"><div class=\"vm-stats-container\">");
    h.push_str("<div class=\"vm-stats-game\" data-game-id=\"1\">");
    h.push_str("<div class=\"vm-stats-game-header\">");
    h.push_str("<div class=\"team\"><div class=\"team-name\">Alpha</div>");
    h.push_str("<div class=\"score mod-win\">13</div></div>");
    h.push_str("<div class=\"map\"><div><span>Ascent</span></div>");
    h.push_str("<span class=\"picked mod-1\"></span>");
    h.push_str("<div class=\"map-duration\">45:00</div></div>");
    h.push_str("<div class=\"team\"><div class=\"team-name\">Beta</div>");
    h.push_str("<div class=\"score\">9</div></div>");
    h.push_str("</div>");
    h.push_str("<div class=\"vlr-rounds\"><div class=\"vlr-rounds-row\">");
    h.push_str("<div class=\"vlr-rounds-row-col\">spacer</div>");
    h.push_str("<div class=\"vlr-rounds-row-col\"><div class=\"rnd-num\">1</div>");
    h.push_str("<div class=\"rnd-sq mod-win mod-t\"></div><div class=\"rnd-sq\"></div></div>");
    h.push_str("<div class=\"vlr-rounds-row-col\"><div class=\"rnd-num\">2</div>");
    h.push_str("<div class=\"rnd-sq\"></div><div class=\"rnd-sq mod-win\"></div></div>");
    h.push_str("<div class=\"vlr-rounds-row-col mod-spacing\"></div>");
    h.push_str("<div class=\"vlr-rounds-row-col\"><div class=\"rnd-num\">3</div>");
    h.push_str("<div class=\"rnd-sq\"></div><div class=\"rnd-sq\"></div></div>");
    h.push_str("</div></div>");
    h.push_str("<div class=\"vm-stats-container\">");
    h.push_str("<div class=\"pad\"></div>");
    h.push_str("<div>");
    h.push_str("<div>");
    h.push_str(player_row("Sweden", "/player/111/neo", "neo", "Jett").as_str());
    h.push_str("</div>");
    h.push_str("<div>");
    h.push_str(player_row("France", "/player/222/ace", "ace", "Sova").as_str());
    h.push_str("</div>");
    h.push_str("</div>");
    h.push_str("<div class=\"pad\"></div>");
    h.push_str("</div>");
    h.push_str("<div class=\"pad\"></div>");
    h.push_str("</div>");
    h.push_str("</div></div>");
    h.push_str("</div>");
    h
}

fn player_row(nation: &str, href: &str, name: &str, agent: &str) -> String {
    let mut h = String::new();
    h.push_str("<table><tbody><tr>");
    h.push_str("<td class=\"mod-player\">");
    h.push_str(&format!("<i class=\"flag\" title=\"{nation}\"></i>"));
    h.push_str(&format!("<a href=\"{href}\"><div>{name}</div></a></td>"));
    h.push_str("<td class=\"mod-agents\"><div><span>");
    h.push_str(&format!("<img title=\"{agent}\">"));
    h.push_str("</span></div></td>");
    for v in ["1.24", "210", "20", "15", "4", "+5", "75%", "150.5", "28%", "3", "2", "+1"] {
        h.push_str("<td class=\"mod-stat\"><span class=\"side mod-both\">");
        h.push_str(v);
        h.push_str("</span></td>");
    }
    h.push_str("</tr></tbody></table>");
    h
}

fn econ_fixture() -> String {
    let mut h = String::new();
    h.push_str("<div class=\"col mod-3\"><div class=\"vm-stats\">");
    h.push_str("<div class=\"vm-stats-game\" data-game-id=\"all\">");
    h.push_str("<table class=\"mod-econ\"><tbody>");
    for (name, cells) in [
        ("Alpha", ["2", "9 (3)", "5 (2)", "4 (1)", "12 (8)"]),
        ("Beta", ["1", "7 (4)", "3 (0)", "6 (2)", "10 (5)"]),
    ] {
        h.push_str("<tr><td>");
        h.push_str(name);
        h.push_str("</td>");
        for c in cells {
            h.push_str("<td><div class=\"stats-sq\">");
            h.push_str(c);
            h.push_str("</div></td>");
        }
        h.push_str("</tr>");
    }
    h.push_str("</tbody></table></div></div></div>");
    h
}

fn perf_fixture() -> String {
    let mut h = String::new();
    h.push_str("<div class=\"col mod-3\"><div class=\"vm-stats\">");
    h.push_str("<div class=\"vm-stats-game\" data-game-id=\"all\">");
    h.push_str("<table class=\"mod-normal\"><tbody>");
    h.push_str("<tr><td></td>");
    h.push_str("<td><div class=\"team\"><div>neo</div></div></td>");
    h.push_str("<td><div class=\"team\"><div>ace</div></div></td></tr>");
    h.push_str("<tr><td><div class=\"team\"><div>neo</div></div></td>");
    h.push_str("<td><div class=\"stats-sq\">0</div><div class=\"stats-sq\">0</div></td>");
    h.push_str("<td><div class=\"stats-sq\">12</div><div class=\"stats-sq\">7</div></td></tr>");
    h.push_str("</tbody></table>");
    h.push_str("<table class=\"mod-adv-stats\"><tbody><tr>");
    h.push_str("<td><div class=\"team\"><div>neo</div></div></td><td></td>");
    for v in ["4", "1", "0", "0", "2", "1", "0", "0", "0", "61", "3", "1"] {
        h.push_str("<td>");
        h.push_str(v);
        h.push_str("</td>");
    }
    h.push_str("</tr></tbody></table>");
    h.push_str("</div></div></div>");
    h
}

#[test]
fn match_detail_header_and_games() {
    let doc = scraper::Html::parse_document(&main_fixture());
    let m = parse_match_detail(99, &doc, None, None).unwrap();
    assert_eq!(m.id, 99);

    let h = &m.header;
    assert_eq!(h.event_icon, "https://www.vlr.gg/img/event.png");
    assert_eq!(h.event_title, "Cup Title");
    assert_eq!(h.event_series_name, "Grand Final");
    assert_eq!(h.event_id, 77);
    assert_eq!(h.event_slug, "cup");
    assert_eq!(h.date.date.year, 2025);
    assert_eq!(h.date.time.hour, 18);
    assert_eq!(h.patch, "9.11");
    assert_eq!(h.status, "final");
    assert_eq!(h.format, "Bo3");
    assert_eq!(h.teams.len(), 2);
    assert_eq!(h.teams[0].id, 10);
    assert_eq!(h.teams[0].slug, "alpha");
    assert_eq!(h.teams[0].href, "https://www.vlr.gg/team/10/alpha");
    assert_eq!(h.teams[0].name, "Alpha");
    assert_eq!(h.teams[0].score, Some(2));
    assert_eq!(h.teams[0].icon, "https://www.vlr.gg/img/a.png");
    assert_eq!(h.teams[1].id, 20);
    assert_eq!(h.teams[1].score, Some(1));

    assert_eq!(m.games.len(), 1);
    let g = &m.games[0];
    assert_eq!(g.map, "Ascent");
    assert_eq!(g.picked_by, Some(10));
    assert_eq!(g.duration.as_deref(), Some("45:00"));
    assert_eq!(g.teams.len(), 2);
    assert_eq!(g.teams[0].name, "Alpha");
    assert_eq!(g.teams[0].score, Some(13));
    assert!(g.teams[0].is_winner);
    assert_eq!(g.teams[1].score, Some(9));
    assert!(!g.teams[1].is_winner);

    assert_eq!(g.rounds.len(), 2, "the round without a win marker is dropped");
    assert_eq!(g.rounds[0].round, 1);
    assert_eq!(g.rounds[0].winning_team, 10);
    assert_eq!(g.rounds[0].winning_site, "t");
    assert_eq!(g.rounds[1].round, 2);
    assert_eq!(g.rounds[1].winning_team, 20);
    assert_eq!(g.rounds[1].winning_site, "ct");
    for w in g.rounds.windows(2) {
        assert!(w[0].round <= w[1].round, "rounds keep ascending order");
    }
    for r in &g.rounds {
        assert!(
            r.winning_team == h.teams[0].id || r.winning_team == h.teams[1].id,
            "every winner is one of the header teams"
        );
    }

    let p = &g.teams[0].players[0];
    assert_eq!(p.id, 111);
    assert_eq!(p.name, "neo");
    assert_eq!(p.slug, "neo");
    assert_eq!(p.nation, "Sweden");
    assert_eq!(p.agent, "Jett");
    assert_eq!(
        p.rating,
        Some(Decimal { negative: false, mantissa: 124, scale: 2 })
    );
    assert_eq!(p.acs, Some(210));
    assert_eq!(p.kills, Some(20));
    assert_eq!(p.deaths, Some(15));
    assert_eq!(p.assists, Some(4));
    assert_eq!(p.kd_diff, Some(5));
    assert_eq!(
        p.kast,
        Some(Decimal { negative: false, mantissa: 75, scale: 2 })
    );
    assert_eq!(
        p.adr,
        Some(Decimal { negative: false, mantissa: 1505, scale: 1 })
    );
    assert_eq!(
        p.hs_pct,
        Some(Decimal { negative: false, mantissa: 28, scale: 2 })
    );
    assert_eq!(p.first_kills, Some(3));
    assert_eq!(p.first_deaths, Some(2));
    assert_eq!(p.fk_diff, Some(1));
    assert_eq!(g.teams[1].players[0].id, 222);
}

#[test]
fn absent_tabs_leave_sections_absent() {
    let doc = scraper::Html::parse_document(&main_fixture());
    let m = parse_match_detail(99, &doc, None, None).unwrap();
    assert!(m.performance.is_none(), "no performance tab, no performance data");
    assert!(m.economy.is_none(), "no economy tab, no economy data");
    assert_eq!(m.header.teams.len(), 2, "the rest of the record is populated");
    assert_eq!(m.games.len(), 1);
}

#[test]
fn unusable_tab_degrades_while_good_tab_parses() {
    let main_doc = scraper::Html::parse_document(&main_fixture());
    let broken = scraper::Html::parse_document("<div class=\"col mod-3\"></div>");
    let econ = scraper::Html::parse_document(&econ_fixture());
    let m = parse_match_detail(99, &main_doc, Some(&broken), Some(&econ)).unwrap();
    assert!(m.performance.is_none(), "a tab without its section degrades to absent");
    let e = m.economy.expect("the economy tab parses");
    assert_eq!(e.teams.len(), 2);
    assert_eq!(e.teams[0].team_name, "Alpha");
    assert_eq!(e.teams[0].pistol_won, 2);
    assert_eq!(e.teams[0].eco_rounds, 9);
    assert_eq!(e.teams[0].eco_won, 3);
    assert_eq!(e.teams[0].semi_eco_rounds, 5);
    assert_eq!(e.teams[0].semi_eco_won, 2);
    assert_eq!(e.teams[0].semi_buy_rounds, 4);
    assert_eq!(e.teams[0].semi_buy_won, 1);
    assert_eq!(e.teams[0].full_buy_rounds, 12);
    assert_eq!(e.teams[0].full_buy_won, 8);
    assert_eq!(e.teams[1].team_name, "Beta");
}

#[test]
fn performance_tab_resolves_names_against_games() {
    let main_doc = scraper::Html::parse_document(&main_fixture());
    let perf = scraper::Html::parse_document(&perf_fixture());
    let m = parse_match_detail(99, &main_doc, Some(&perf), None).unwrap();
    let p = m.performance.expect("the performance tab parses");

    assert_eq!(p.kill_matrix.len(), 2);
    assert_eq!(p.kill_matrix[0].killer_id, 111);
    assert_eq!(p.kill_matrix[0].victim_id, 111);
    assert_eq!(p.kill_matrix[0].kills, 0);
    assert_eq!(p.kill_matrix[1].killer_id, 111);
    assert_eq!(p.kill_matrix[1].victim_id, 222, "victim resolved by name");
    assert_eq!(p.kill_matrix[1].kills, 12);
    assert_eq!(p.kill_matrix[1].deaths, 7);

    assert_eq!(p.player_performances.len(), 1);
    let pp = &p.player_performances[0];
    assert_eq!(pp.player_id, 111);
    assert_eq!(pp.player_name, "neo");
    assert_eq!(pp.multi_kills_2k, 4);
    assert_eq!(pp.multi_kills_3k, 1);
    assert_eq!(pp.clutch_1v1, 2);
    assert_eq!(pp.econ_rating, 61);
    assert_eq!(pp.plants, 3);
    assert_eq!(pp.defuses, 1);
}

#[test]
fn name_lookup_is_idempotent() {
    let doc = scraper::Html::parse_document(&main_fixture());
    let m = parse_match_detail(99, &doc, None, None).unwrap();
    let first = build_player_name_map(&m.games);
    let second = build_player_name_map(&m.games);
    assert_eq!(first, second, "rebuilding the lookup yields the same mapping");
    assert_eq!(name_map_get(&first, "neo"), 111);
    assert_eq!(name_map_get(&first, "ace"), 222);
    assert_eq!(name_map_get(&first, "nobody"), 0, "an unknown name degrades to 0");
}

#[test]
fn page_without_match_column_is_an_element_error() {
    let doc = scraper::Html::parse_document("<div class=\"other\"></div>");
    let r = parse_match_detail(1, &doc, None, None);
    assert!(matches!(r, Err(vlr_scraper::error::VlrError::ElementNotFound(_))));
}

#[test]
fn header_without_timestamp_is_a_date_error() {
    let mut h = String::new();
    h.push_str("<div class=\"col mod-3\"><div class=\"match-header\">");
    h.push_str("<div class=\"match-header-super\">");
    h.push_str("<a class=\"match-header-event\" href=\"/event/77/cup\"><img src=\"/i.png\"></a>");
    h.push_str("<div class=\"match-header-date\">");
    h.push_str("<div class=\"moment-tz-convert\" data-utc-ts=\"not a timestamp\"></div>");
    h.push_str("</div></div></div></div>");
    let doc = scraper::Html::parse_document(&h);
    let r = parse_match_detail(1, &doc, None, None);
    assert!(matches!(r, Err(vlr_scraper::error::VlrError::DateParse(_))));
}
