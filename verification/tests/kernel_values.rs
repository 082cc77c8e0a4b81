//! Direct checks of the match-detail kernels on plain values: the
//! bounded header zip, the round scan, the card-link and event-link
//! splitters, and the row builders.

use vlr_scraper::match_detail::{
    assemble_rounds, parse_event_ref, zip_header_teams, RawRound, RoundSquare,
};
use vlr_scraper::match_item::{combine_start, parse_card_ref};
use vlr_scraper::match_page::{build_game_player, picked_team};
use vlr_scraper::match_stats::{build_kill_row, KillCell};
use vlr_scraper::team::{build_transaction, role_or_player};

fn strings(v: &[&str]) -> Vec<String> {
    v.iter().map(|s| s.to_string()).collect()
}

#[test]
fn header_zip_pads_missing_positions() {
    let links = strings(&["/team/10/alpha"]);
    let names = strings(&["Alpha", "Beta"]);
    let scores = strings(&["2", "1"]);
    let icons = strings(&[]);
    let teams = zip_header_teams(&links, &names, &scores, &icons);
    assert_eq!(teams.len(), 2, "the zip always yields exactly two teams");
    assert_eq!(teams[0].id, 10);
    assert_eq!(teams[0].slug, "alpha");
    assert_eq!(teams[0].name, "Alpha");
    assert_eq!(teams[0].score, Some(2));
    assert_eq!(teams[0].icon, "");
    assert_eq!(teams[1].id, 0, "a missing link pads with the absent id");
    assert_eq!(teams[1].slug, "");
    assert_eq!(teams[1].href, "");
    assert_eq!(teams[1].name, "Beta");
    assert_eq!(teams[1].score, Some(1));
}

#[test]
fn header_zip_ignores_scores_unless_exactly_two() {
    let links = strings(&["/team/10/alpha", "/team/20/beta"]);
    let names = strings(&["Alpha", "Beta"]);
    let scores = strings(&["2"]);
    let icons = strings(&["i1", "i2"]);
    let teams = zip_header_teams(&links, &names, &scores, &icons);
    assert_eq!(teams[0].score, None);
    assert_eq!(teams[1].score, None);
}

fn round(num: &str, squares: &[&[&str]]) -> RawRound {
    RawRound {
        num_text: num.to_string(),
        squares: squares
            .iter()
            .map(|classes| RoundSquare {
                classes: strings(classes),
            })
            .collect(),
    }
}

#[test]
fn round_scan_keeps_decided_rounds_in_order() {
    let rounds = vec![
        round("1", &[&["rnd-sq", "mod-win", "mod-t"], &["rnd-sq"]]),
        round("2", &[&["rnd-sq"], &["rnd-sq"]]),
        round("3", &[&["rnd-sq"], &["rnd-sq", "mod-win"]]),
    ];
    let team_ids = vec![10u32, 20u32];
    let out = assemble_rounds(&rounds, &team_ids);
    assert_eq!(out.len(), 2, "the undecided round is dropped");
    assert_eq!(out[0].round, 1);
    assert_eq!(out[0].winning_team, 10);
    assert_eq!(out[0].winning_site, "t");
    assert_eq!(out[1].round, 3);
    assert_eq!(out[1].winning_team, 20);
    assert_eq!(out[1].winning_site, "ct");
    assert!(out[0].round <= out[1].round);
    for r in &out {
        assert!(team_ids.contains(&r.winning_team));
    }
}

#[test]
fn round_scan_drops_wins_beyond_the_team_list() {
    let rounds = vec![round(
        "1",
        &[&["rnd-sq"], &["rnd-sq"], &["rnd-sq", "mod-win"]],
    )];
    let out = assemble_rounds(&rounds, &vec![10u32, 20u32]);
    assert!(out.is_empty(), "a third outcome square maps to no team");
}

#[test]
fn kill_row_pairs_cells_with_victims() {
    let victims = vec![111u32, 222u32];
    let cells = vec![
        KillCell {
            square_texts: strings(&["3", "5", "-2"]),
        },
        KillCell {
            square_texts: strings(&["7"]),
        },
        KillCell {
            square_texts: strings(&[]),
        },
    ];
    let row = build_kill_row(99, &victims, &cells);
    assert_eq!(row.len(), 3);
    assert_eq!(row[0].killer_id, 99);
    assert_eq!(row[0].victim_id, 111);
    assert_eq!((row[0].kills, row[0].deaths), (3, 5));
    assert_eq!(row[1].victim_id, 222);
    assert_eq!((row[1].kills, row[1].deaths), (7, 0));
    assert_eq!(row[2].victim_id, 0, "a cell past the victim headers maps to 0");
    assert_eq!((row[2].kills, row[2].deaths), (0, 0));
}

#[test]
fn card_links_split_or_are_refused() {
    assert_eq!(parse_card_ref("/456/alpha-vs-beta"), Some((456, "alpha-vs-beta".to_string())));
    assert_eq!(parse_card_ref("/abc/some-slug"), Some((0, "some-slug".to_string())));
    assert_eq!(parse_card_ref("/nosplit"), None);
    assert_eq!(parse_card_ref("456/alpha"), None, "a leading slash is required");
    assert_eq!(parse_card_ref("/a/b/c"), None, "more than two segments is refused");
}

#[test]
fn start_needs_both_date_and_time() {
    assert!(combine_start("2025/01/04", "3:00 PM").is_some());
    assert!(combine_start("2025/01/04", "sometime").is_none());
    assert!(combine_start("January 4", "3:00 PM").is_none());
}

#[test]
fn event_links_yield_id_and_slug() {
    assert_eq!(parse_event_ref("/event/77/cup"), (77, "cup".to_string()));
    assert_eq!(parse_event_ref("/event/77/cup/extra"), (77, "cup".to_string()));
    assert_eq!(parse_event_ref("/event/77"), (77, "".to_string()));
    assert_eq!(parse_event_ref("/elsewhere/77/cup"), (0, "".to_string()));
}

#[test]
fn picked_marker_maps_to_header_teams() {
    let ids = vec![10u32, 20u32];
    assert_eq!(picked_team(&strings(&["picked", "mod-1"]), &ids), Some(10));
    assert_eq!(picked_team(&strings(&["picked", "mod-2"]), &ids), Some(20));
    assert_eq!(picked_team(&strings(&["picked"]), &ids), None);
    assert_eq!(picked_team(&strings(&["mod-2"]), &vec![10u32]), None);
}

#[test]
fn player_row_builder_leaves_missing_cells_absent() {
    let mut cells: Vec<Option<String>> = vec![None; 12];
    cells[2] = Some("20".to_string());
    cells[5] = Some("+5".to_string());
    cells[6] = Some("75%".to_string());
    let p = build_game_player(
        "Sweden".to_string(),
        "/player/111/neo",
        "neo".to_string(),
        "Jett".to_string(),
        &cells,
    );
    assert_eq!(p.id, 111);
    assert_eq!(p.slug, "neo");
    assert!(p.rating.is_none());
    assert_eq!(p.kills, Some(20));
    assert_eq!(p.kd_diff, Some(5));
    let kast = p.kast.unwrap();
    assert_eq!((kast.mantissa, kast.scale), (75, 2));
    assert!(p.adr.is_none());
}

#[test]
fn transactions_default_their_missing_pieces() {
    let t = build_transaction(
        "Unknown",
        "leave".to_string(),
        None,
        None,
        None,
        "player".to_string(),
        None,
    );
    assert!(t.date.is_none());
    assert_eq!(t.player_id, 0);
    assert_eq!(t.player_slug, "");
    assert_eq!(t.player_alias, "");
    let t2 = build_transaction(
        "2025/01/04",
        "join".to_string(),
        Some(("/player/17323/mimi".to_string(), "mimi".to_string())),
        None,
        None,
        "player".to_string(),
        None,
    );
    let d = t2.date.unwrap();
    assert_eq!((d.year, d.month, d.day), (2025, 1, 4));
    assert_eq!(t2.player_id, 17323);
    assert_eq!(t2.player_slug, "mimi");
    assert_eq!(role_or_player(String::new()), "player");
    assert_eq!(role_or_player("manager".to_string()), "manager");
}
