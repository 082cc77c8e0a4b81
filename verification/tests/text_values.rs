//! Value-level checks of the text, number and URL kernels.

use vlr_scraper::events::EventStatus;
use vlr_scraper::match_stats::parse_rounds_won;
use vlr_scraper::numbers::{parse_lenient_decimal, parse_u32, Decimal};
use vlr_scraper::player::{parse_pct, parse_usage};
use vlr_scraper::utils::{infer_platform, normalize_img_url, parse_img_link};

fn dec(negative: bool, mantissa: u64, scale: u32) -> Decimal {
    Decimal {
        negative,
        mantissa,
        scale,
    }
}

fn approx(d: &Decimal) -> f64 {
    let v = d.mantissa as f64 / 10f64.powi(d.scale as i32);
    if d.negative {
        -v
    } else {
        v
    }
}

#[test]
fn url_protocol_relative_gains_scheme() {
    assert_eq!(parse_img_link("//cdn/x.png"), "https://cdn/x.png");
    assert_eq!(normalize_img_url("//cdn/x.png"), "https://cdn/x.png");
}

#[test]
fn url_site_relative_gains_origin() {
    assert_eq!(parse_img_link("/img/x.png"), "https://www.vlr.gg/img/x.png");
    assert_eq!(normalize_img_url("/img/x.png"), "https://www.vlr.gg/img/x.png");
}

#[test]
fn url_absolute_unchanged() {
    assert_eq!(parse_img_link("https://x/y"), "https://x/y");
    assert_eq!(normalize_img_url("https://x/y"), "https://x/y");
    assert_eq!(normalize_img_url(""), "");
}

#[test]
fn usage_cell_splits_count_and_fraction() {
    let (count, pct) = parse_usage("(95) 20%");
    assert_eq!(count, 95);
    assert_eq!(pct, dec(false, 20, 2));
    assert!((approx(&pct) - 0.20).abs() < 1e-9);
}

#[test]
fn usage_cell_empty_degrades_to_zero() {
    let (count, pct) = parse_usage("");
    assert_eq!(count, 0);
    assert_eq!(approx(&pct), 0.0);
}

#[test]
fn usage_cell_partial_shapes() {
    let (count, pct) = parse_usage("(12)");
    assert_eq!(count, 12);
    assert_eq!(approx(&pct), 0.0);
    let (count2, pct2) = parse_usage("(7) 12.5%");
    assert_eq!(count2, 7);
    assert_eq!(pct2, dec(false, 125, 3));
}

#[test]
fn economy_cell_with_parenthesis() {
    assert_eq!(parse_rounds_won("9 (3)"), (9, 3));
    assert_eq!(parse_rounds_won("12 (8)"), (12, 8));
}

#[test]
fn economy_cell_without_parenthesis() {
    assert_eq!(parse_rounds_won("0"), (0, 0));
    assert_eq!(parse_rounds_won(""), (0, 0));
}

#[test]
fn percentage_parses_exactly() {
    assert_eq!(parse_pct("77%"), dec(false, 77, 2));
    assert_eq!(parse_pct("12.5%"), dec(false, 125, 3));
    assert_eq!(parse_pct("nope"), dec(false, 0, 0));
}

#[test]
fn lenient_decimal_keeps_digits() {
    assert_eq!(parse_lenient_decimal("1.24"), dec(false, 124, 2));
    assert_eq!(parse_lenient_decimal(" 210.5 "), dec(false, 2105, 1));
    assert_eq!(parse_lenient_decimal("-0.3"), dec(true, 3, 1));
    assert_eq!(parse_lenient_decimal("junk"), dec(false, 0, 0));
}

#[test]
fn lenient_u32_matches_standard_parse() {
    assert_eq!(parse_u32(" 42 "), 42);
    assert_eq!(parse_u32("+7"), 7);
    assert_eq!(parse_u32("-7"), 0);
    assert_eq!(parse_u32("4294967295"), u32::MAX);
    assert_eq!(parse_u32("4294967296"), 0);
    assert_eq!(parse_u32(""), 0);
}

#[test]
fn platform_is_inferred_from_host() {
    assert_eq!(infer_platform("https://Twitter.com/someone"), "twitter");
    assert_eq!(infer_platform("https://x.com/someone"), "twitter");
    assert_eq!(infer_platform("https://www.twitch.tv/chan"), "twitch");
    assert_eq!(infer_platform("https://youtu.be/v"), "youtube");
    assert_eq!(infer_platform("https://example.org"), "other");
}

#[test]
fn status_lookup_is_case_insensitive() {
    assert_eq!(EventStatus::from_text("Ongoing"), EventStatus::Ongoing);
    assert_eq!(EventStatus::from_text("UPCOMING"), EventStatus::Upcoming);
    assert_eq!(EventStatus::from_text("completed"), EventStatus::Completed);
    assert_eq!(EventStatus::from_text("odd"), EventStatus::Unknown);
    assert_eq!(EventStatus::from_text(""), EventStatus::Unknown);
}

#[test]
fn trimming_strips_unicode_whitespace() {
    assert_eq!(parse_u32("\u{a0}42\u{a0}"), 42, "no-break spaces trim away");
    assert_eq!(parse_u32(" \u{2009}7 "), 7, "thin spaces trim away");
    assert_eq!(
        parse_lenient_decimal("\u{a0}1.5\u{a0}"),
        dec(false, 15, 1)
    );
}
