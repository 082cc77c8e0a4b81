//! The exactly-specified kernels of the performance and economy tabs.
//!
//! The performance tables carry no player links, so players are
//! resolved by display name against a lookup rebuilt per parse from the
//! already-parsed games; a name that resolves to nobody degrades to the
//! defined unknown id 0. The lookup is a pure function of the game
//! list. Economy cells of the shape `"9 (3)"` split at the parenthesis
//! into a (rounds, won) pair; a cell with no parenthesis counts (0, 0).

use vstd::prelude::*;
use vstd::string::*;

use crate::match_detail::{KillMatrixEntry, MatchGame, MatchGamePlayer, MatchGameTeam, TeamEconomy};
use crate::numbers::{u16_or_zero, u8_or_zero, parse_u16_default, parse_u8_default};
use crate::text::{
    chars_eq_str, chars_split_first, first_index_of, str_chars, strip_trailing, strip_trailing_chars,
    trim_chars, trimmed,
};

verus! {

/// A player enters the lookup when it has a real id and a name.
pub open spec fn eligible(p: MatchGamePlayer) -> bool {
    p.id != 0 && p.name@.len() > 0
}

/// The name→id map a player list induces: later entries override
/// earlier ones of the same name.
pub open spec fn name_map_of(ps: Seq<MatchGamePlayer>) -> Map<Seq<char>, u32>
    decreases ps.len(),
{
    if ps.len() == 0 {
        Map::empty()
    } else {
        let m = name_map_of(ps.drop_last());
        if eligible(ps.last()) {
            m.insert(ps.last().name@, ps.last().id)
        } else {
            m
        }
    }
}

/// The players of a team list, in order.
pub open spec fn team_players(teams: Seq<MatchGameTeam>) -> Seq<MatchGamePlayer>
    decreases teams.len(),
{
    if teams.len() == 0 {
        Seq::empty()
    } else {
        team_players(teams.drop_last()) + teams.last().players@
    }
}

/// Every player of every team of every game, in page order.
pub open spec fn all_players(games: Seq<MatchGame>) -> Seq<MatchGamePlayer>
    decreases games.len(),
{
    if games.len() == 0 {
        Seq::empty()
    } else {
        all_players(games.drop_last()) + team_players(games.last().teams@)
    }
}

/// The map an association list builds up, later entries overriding.
pub open spec fn assoc_map(entries: Seq<(String, u32)>) -> Map<Seq<char>, u32>
    decreases entries.len(),
{
    if entries.len() == 0 {
        Map::empty()
    } else {
        assoc_map(entries.drop_last()).insert(entries.last().0@, entries.last().1)
    }
}

/// What a name resolves to: its mapping, or the unknown sentinel 0.
pub open spec fn lookup_or_zero(entries: Seq<(String, u32)>, name: Seq<char>) -> int {
    if assoc_map(entries).dom().contains(name) {
        assoc_map(entries)[name] as int
    } else {
        0
    }
}

/// Law: the performance name→id lookup is a pure function of the parsed
/// game list, so rebuilding it against the same games yields the same
/// mapping.
pub proof fn lemma_name_map_idempotent(games1: Seq<MatchGame>, games2: Seq<MatchGame>)
    requires
        games1 == games2,
    ensures
        name_map_of(all_players(games1)) == name_map_of(all_players(games2)),
{
}

/// Build the name→id lookup from every player of the parsed games.
pub fn build_player_name_map(games: &Vec<MatchGame>) -> (r: Vec<(String, u32)>)
    ensures
        assoc_map(r@) == name_map_of(all_players(games@)),
{
    let mut out: Vec<(String, u32)> = Vec::new();
    let ghost mut done: Seq<MatchGamePlayer> = Seq::empty();
    proof {
        assert(done =~= all_players(games@.subrange(0, 0)));
        assert(name_map_of(done) =~~= assoc_map(out@));
    }
    let mut g: usize = 0;
    while g < games.len()
        invariant
            g <= games@.len(),
            assoc_map(out@) == name_map_of(done),
            done == all_players(games@.subrange(0, g as int)),
        decreases games@.len() - g,
    {
        let teams = &games[g].teams;
        let ghost base_g = done;
        proof {
            assert(done =~= base_g + team_players(teams@.subrange(0, 0)));
        }
        let mut t: usize = 0;
        while t < teams.len()
            invariant
                t <= teams@.len(),
                assoc_map(out@) == name_map_of(done),
                done == base_g + team_players(teams@.subrange(0, t as int)),
                teams@ == games@[g as int].teams@,
                g < games@.len(),
            decreases teams@.len() - t,
        {
            let players = &teams[t].players;
            let ghost base_t = done;
            proof {
                assert(done =~= base_t + players@.subrange(0, 0));
            }
            let mut p: usize = 0;
            while p < players.len()
                invariant
                    p <= players@.len(),
                    assoc_map(out@) == name_map_of(done),
                    done == base_t + players@.subrange(0, p as int),
                    players@ == teams@[t as int].players@,
                    t < teams@.len(),
                decreases players@.len() - p,
            {
                let pl = &players[p];
                let ghost old_out = out@;
                let pushed = pl.id != 0 && !pl.name.as_str().is_empty();
                if pushed {
                    out.push((pl.name.clone(), pl.id));
                }
                proof {
                    let cur = players@[p as int];
                    let new_done = done.push(cur);
                    assert(new_done.drop_last() =~= done);
                    assert(new_done.last() == cur);
                    if pushed {
                        assert(out@.drop_last() =~= old_out);
                        assert(out@.last().0@ == cur.name@ && out@.last().1 == cur.id);
                        assert(assoc_map(out@) == assoc_map(old_out).insert(cur.name@, cur.id));
                        assert(eligible(cur));
                        assert(name_map_of(new_done) == name_map_of(done).insert(
                            cur.name@,
                            cur.id,
                        ));
                        assert(assoc_map(out@) =~~= name_map_of(new_done));
                    } else {
                        assert(!eligible(cur));
                        assert(name_map_of(new_done) == name_map_of(done));
                    }
                    done = new_done;
                    assert(done =~= base_t + players@.subrange(0, p as int + 1));
                }
                p = p + 1;
            }
            proof {
                assert(players@.subrange(0, players@.len() as int) =~= players@);
                let ts = teams@.subrange(0, t as int + 1);
                assert(ts.drop_last() =~= teams@.subrange(0, t as int));
                assert(ts.last() == teams@[t as int]);
                assert(done =~= base_g + team_players(ts));
            }
            t = t + 1;
        }
        proof {
            assert(teams@.subrange(0, teams@.len() as int) =~= teams@);
            let gs = games@.subrange(0, g as int + 1);
            assert(gs.drop_last() =~= games@.subrange(0, g as int));
            assert(gs.last() == games@[g as int]);
            assert(done =~= all_players(gs));
        }
        g = g + 1;
    }
    proof {
        assert(games@.subrange(0, games@.len() as int) =~= games@);
    }
    out
}

/// Resolve a display name against the lookup; 0 when it is unknown.
pub fn name_map_get(entries: &Vec<(String, u32)>, name: &str) -> (r: u32)
    ensures
        r == lookup_or_zero(entries@, name@),
{
    let ghost full = entries@;
    proof {
        assert(full.subrange(0, full.len() as int) =~= full);
    }
    let mut i: usize = entries.len();
    while i > 0
        invariant
            i <= entries@.len(),
            full == entries@,
            lookup_or_zero(full, name@) == lookup_or_zero(full.subrange(0, i as int), name@),
        decreases i,
    {
        proof {
            let s = full.subrange(0, i as int);
            assert(s.drop_last() =~= full.subrange(0, i as int - 1));
            assert(s.last() == full[i - 1]);
        }
        let key_chars = str_chars(entries[i - 1].0.as_str());
        if chars_eq_str(&key_chars, name) {
            return entries[i - 1].1;
        }
        i = i - 1;
    }
    proof {
        assert(lookup_or_zero(full.subrange(0, 0), name@) == 0) by {
            assert(full.subrange(0, 0) =~= Seq::<(String, u32)>::empty());
        }
    }
    0
}

/// An id the performance tab may carry: the unknown sentinel 0, or an
/// id the games' name→id lookup maps some display name to.
pub open spec fn id_resolved(games: Seq<MatchGame>, id: u32) -> bool {
    ||| id == 0
    ||| exists|n: Seq<char>|
        #![auto]
        name_map_of(all_players(games)).dom().contains(n) && name_map_of(all_players(games))[n]
            == id
}

/// Assemble one advanced-statistics record from a player's twelve
/// numeric cells, in column order; an unreadable cell counts zero.
pub fn build_player_performance(
    player_id: u32,
    player_name: String,
    cells: &Vec<String>,
) -> (r: crate::match_detail::PlayerPerformance)
    requires
        cells@.len() == 12,
    ensures
        r.player_id == player_id,
        r.player_name == player_name,
        r.multi_kills_2k == u8_or_zero(cells@[0]@),
        r.multi_kills_3k == u8_or_zero(cells@[1]@),
        r.multi_kills_4k == u8_or_zero(cells@[2]@),
        r.multi_kills_5k == u8_or_zero(cells@[3]@),
        r.clutch_1v1 == u8_or_zero(cells@[4]@),
        r.clutch_1v2 == u8_or_zero(cells@[5]@),
        r.clutch_1v3 == u8_or_zero(cells@[6]@),
        r.clutch_1v4 == u8_or_zero(cells@[7]@),
        r.clutch_1v5 == u8_or_zero(cells@[8]@),
        r.econ_rating == u16_or_zero(cells@[9]@),
        r.plants == u8_or_zero(cells@[10]@),
        r.defuses == u8_or_zero(cells@[11]@),
{
    let v0 = str_chars(cells[0].as_str());
    let v1 = str_chars(cells[1].as_str());
    let v2 = str_chars(cells[2].as_str());
    let v3 = str_chars(cells[3].as_str());
    let v4 = str_chars(cells[4].as_str());
    let v5 = str_chars(cells[5].as_str());
    let v6 = str_chars(cells[6].as_str());
    let v7 = str_chars(cells[7].as_str());
    let v8 = str_chars(cells[8].as_str());
    let v9 = str_chars(cells[9].as_str());
    let v10 = str_chars(cells[10].as_str());
    let v11 = str_chars(cells[11].as_str());
    crate::match_detail::PlayerPerformance {
        player_id,
        player_name,
        multi_kills_2k: parse_u8_default(&v0),
        multi_kills_3k: parse_u8_default(&v1),
        multi_kills_4k: parse_u8_default(&v2),
        multi_kills_5k: parse_u8_default(&v3),
        clutch_1v1: parse_u8_default(&v4),
        clutch_1v2: parse_u8_default(&v5),
        clutch_1v3: parse_u8_default(&v6),
        clutch_1v4: parse_u8_default(&v7),
        clutch_1v5: parse_u8_default(&v8),
        econ_rating: parse_u16_default(&v9),
        plants: parse_u8_default(&v10),
        defuses: parse_u8_default(&v11),
    }
}

/// A lookup hit is an id of the map: what `name_map_get` hands back is
/// always resolved against the games the lookup was built from.
pub proof fn lemma_lookup_resolved(
    entries: Seq<(String, u32)>,
    games: Seq<MatchGame>,
    name: Seq<char>,
    id: u32,
)
    requires
        assoc_map(entries) == name_map_of(all_players(games)),
        id == lookup_or_zero(entries, name),
    ensures
        id_resolved(games, id),
{
    if assoc_map(entries).dom().contains(name) {
        assert(name_map_of(all_players(games)).dom().contains(name) && name_map_of(
            all_players(games),
        )[name] == id);
    }
}

/// One kill-matrix cell as read off the page: the texts of its stat
/// squares (kills, deaths, difference).
#[derive(Debug, Clone)]
pub struct KillCell {
    pub square_texts: Vec<String>,
}

/// The kills figure of a cell: its first stat square, zero when absent
/// or unreadable.
pub open spec fn cell_kills(c: KillCell) -> int {
    if c.square_texts@.len() >= 1 {
        u16_or_zero(c.square_texts@[0]@)
    } else {
        0
    }
}

/// The deaths figure of a cell: its second stat square.
pub open spec fn cell_deaths(c: KillCell) -> int {
    if c.square_texts@.len() >= 2 {
        u16_or_zero(c.square_texts@[1]@)
    } else {
        0
    }
}

/// Assemble one killer's row of the kill matrix: one entry per cell, in
/// column order, against the victim at the same position (unknown id 0
/// where the headers ran short).
pub fn build_kill_row(
    killer_id: u32,
    victim_ids: &Vec<u32>,
    cells: &Vec<KillCell>,
) -> (r: Vec<KillMatrixEntry>)
    ensures
        r@.len() == cells@.len(),
        forall|ci: int|
            0 <= ci < r@.len() ==> {
                &&& (#[trigger] r@[ci]).killer_id == killer_id
                &&& r@[ci].victim_id == (if ci < victim_ids@.len() {
                    victim_ids@[ci]
                } else {
                    0u32
                })
                &&& r@[ci].kills == cell_kills(cells@[ci])
                &&& r@[ci].deaths == cell_deaths(cells@[ci])
            },
{
    let mut r: Vec<KillMatrixEntry> = Vec::new();
    let mut ci: usize = 0;
    while ci < cells.len()
        invariant
            ci <= cells@.len(),
            r@.len() == ci,
            forall|j: int|
                0 <= j < ci ==> {
                    &&& (#[trigger] r@[j]).killer_id == killer_id
                    &&& r@[j].victim_id == (if j < victim_ids@.len() {
                        victim_ids@[j]
                    } else {
                        0u32
                    })
                    &&& r@[j].kills == cell_kills(cells@[j])
                    &&& r@[j].deaths == cell_deaths(cells@[j])
                },
        decreases cells@.len() - ci,
    {
        let cell = &cells[ci];
        let kills = if cell.square_texts.len() >= 1 {
            let t = str_chars(cell.square_texts[0].as_str());
            parse_u16_default(&t)
        } else {
            0
        };
        let deaths = if cell.square_texts.len() >= 2 {
            let t = str_chars(cell.square_texts[1].as_str());
            parse_u16_default(&t)
        } else {
            0
        };
        let victim_id = if ci < victim_ids.len() {
            victim_ids[ci]
        } else {
            0
        };
        r.push(KillMatrixEntry { killer_id, victim_id, kills, deaths });
        ci = ci + 1;
    }
    r
}

/// The (rounds, won) pair of an economy cell: at the first parenthesis
/// the trimmed front parses as the rounds and the trimmed tail, its
/// closing parentheses dropped, as the rounds won; a cell without a
/// parenthesis counts (0, 0), and so does any unreadable number.
pub open spec fn econ_cell(text: Seq<char>) -> (int, int) {
    let k = first_index_of(text, '(');
    if k < text.len() {
        let before = text.subrange(0, k);
        let after = text.subrange(k + 1, text.len() as int);
        (
            u8_or_zero(trimmed(before)),
            u8_or_zero(trimmed(strip_trailing(after, ')'))),
        )
    } else {
        (0, 0)
    }
}

/// Split an economy cell of the shape `"9 (3)"` into its (rounds, won)
/// pair.
pub fn parse_rounds_won(text: &str) -> (r: (u8, u8))
    ensures
        r.0 == econ_cell(text@).0,
        r.1 == econ_cell(text@).1,
{
    let chars = str_chars(text);
    let (before, after) = chars_split_first(&chars, '(');
    match after {
        Some(after) => {
            let t0 = trim_chars(&before);
            let rounds = parse_u8_default(&t0);
            let stripped = strip_trailing_chars(&after, ')');
            let t1 = trim_chars(&stripped);
            let won = parse_u8_default(&t1);
            (rounds, won)
        },
        None => (0, 0),
    }
}

/// The five stat-square texts of one economy table row, after its name
/// cell: pistol rounds won, then the four buy tiers.
#[derive(Debug, Clone)]
pub struct EconRowCells {
    pub pistol_text: String,
    pub eco_text: String,
    pub semi_eco_text: String,
    pub semi_buy_text: String,
    pub full_buy_text: String,
}

/// Assemble one team's economy breakdown from its row's cell texts.
pub fn build_team_economy(name: String, cells: &EconRowCells) -> (r: TeamEconomy)
    ensures
        r.team_name == name,
        r.pistol_won == u8_or_zero(trimmed(cells.pistol_text@)),
        r.eco_rounds == econ_cell(cells.eco_text@).0,
        r.eco_won == econ_cell(cells.eco_text@).1,
        r.semi_eco_rounds == econ_cell(cells.semi_eco_text@).0,
        r.semi_eco_won == econ_cell(cells.semi_eco_text@).1,
        r.semi_buy_rounds == econ_cell(cells.semi_buy_text@).0,
        r.semi_buy_won == econ_cell(cells.semi_buy_text@).1,
        r.full_buy_rounds == econ_cell(cells.full_buy_text@).0,
        r.full_buy_won == econ_cell(cells.full_buy_text@).1,
{
    let pc = str_chars(cells.pistol_text.as_str());
    let pt = trim_chars(&pc);
    let pistol_won = parse_u8_default(&pt);
    let (eco_rounds, eco_won) = parse_rounds_won(cells.eco_text.as_str());
    let (semi_eco_rounds, semi_eco_won) = parse_rounds_won(cells.semi_eco_text.as_str());
    let (semi_buy_rounds, semi_buy_won) = parse_rounds_won(cells.semi_buy_text.as_str());
    let (full_buy_rounds, full_buy_won) = parse_rounds_won(cells.full_buy_text.as_str());
    TeamEconomy {
        team_name: name,
        pistol_won,
        eco_rounds,
        eco_won,
        semi_eco_rounds,
        semi_eco_won,
        semi_buy_rounds,
        semi_buy_won,
        full_buy_rounds,
        full_buy_won,
    }
}

} // verus!
