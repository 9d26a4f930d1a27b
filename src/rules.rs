use vstd::prelude::*;
use rand::Rng;
use crate::fixed::{UNIT, MAX_CELLS};
use crate::grid::{grid_wf, in_grid, cell};

verus! {

/// Coins are placed in cells of this square at the grid's corner.
pub const SPAWN_CELLS: usize = 23;

/// The number of coins found that ends a round.
pub const COINS_PER_ROUND: u32 = 3;

/// Relies on `rand::Rng::gen_range` of `rand::thread_rng()` (rand 0.7): a
/// value in `[low, high)`; it panics when `low >= high`, which `requires`
/// excludes.
#[verifier::external_body]
fn random_below(n: usize) -> (r: usize)
    requires
        n > 0,
    ensures
        r < n,
{
    rand::thread_rng().gen_range(0, n)
}

/// Centre (fixed point) of cell `c` on one axis.
pub open spec fn cell_centre(c: int) -> int {
    c * UNIT + UNIT / 2
}

/// The cell `(x, y)` of the spawn square is empty.
pub open spec fn spawn_cell(g: Seq<Vec<u8>>, x: int, y: int) -> bool {
    0 <= x < SPAWN_CELLS && 0 <= y < SPAWN_CELLS && in_grid(g, x, y) && cell(g, x, y) == 0
}

/// The empty cells of the spawn square, row by row.
fn spawn_cells(g: &Vec<Vec<u8>>) -> (cells: Vec<(usize, usize)>)
    requires
        grid_wf(g@),
    ensures
        forall|k: int| 0 <= k < cells@.len() ==> spawn_cell(g@, (#[trigger] cells@[k]).0 as int, cells@[k].1 as int),
        forall|x: int, y: int| #[trigger] spawn_cell(g@, x, y) ==> exists|k: int| 0 <= k < cells@.len() && cells@[k] == (x as usize, y as usize),
{
    let mut cells: Vec<(usize, usize)> = Vec::new();
    let mut x: usize = 0;
    while x < SPAWN_CELLS
        invariant
            grid_wf(g@),
            x <= SPAWN_CELLS,
            forall|k: int| 0 <= k < cells@.len() ==> spawn_cell(g@, (#[trigger] cells@[k]).0 as int, cells@[k].1 as int),
            forall|a: int, b: int| #[trigger] spawn_cell(g@, a, b) && a < x ==> exists|k: int| 0 <= k < cells@.len() && cells@[k] == (a as usize, b as usize),
        decreases SPAWN_CELLS - x,
    {
        let mut y: usize = 0;
        while y < SPAWN_CELLS
            invariant
                grid_wf(g@),
                x < SPAWN_CELLS,
                y <= SPAWN_CELLS,
                forall|k: int| 0 <= k < cells@.len() ==> spawn_cell(g@, (#[trigger] cells@[k]).0 as int, cells@[k].1 as int),
                forall|a: int, b: int| #[trigger] spawn_cell(g@, a, b) && (a < x || (a == x && b < y)) ==> exists|k: int| 0 <= k < cells@.len() && cells@[k] == (a as usize, b as usize),
            decreases SPAWN_CELLS - y,
        {
            if x < g.len() && y < g[x].len() && g[x][y] == 0 {
                let ghost before = cells@;
                cells.push((x, y));
                proof {
                    assert forall|a: int, b: int| #[trigger] spawn_cell(g@, a, b) && (a < x || (a == x && b < y + 1)) implies exists|k: int| 0 <= k < cells@.len() && cells@[k] == (a as usize, b as usize) by {
                        if a == x && b == y {
                            assert(cells@[before.len() as int] == (a as usize, b as usize));
                        } else {
                            let k = choose|k: int| 0 <= k < before.len() && before[k] == (a as usize, b as usize);
                            assert(cells@[k] == before[k]);
                        }
                    }
                }
            }
            y += 1;
        }
        x += 1;
    }
    cells
}

/// A random empty cell of the spawn square, as the fixed-point position of
/// its centre, each such cell equally likely; `None` when there is none.
pub fn random_position(g: &Vec<Vec<u8>>) -> (r: Option<(i64, i64)>)
    requires
        grid_wf(g@),
    ensures
        r is None <==> forall|x: int, y: int| !spawn_cell(g@, x, y),
        r matches Some((px, py)) ==> exists|x: int, y: int|
            #[trigger] spawn_cell(g@, x, y) && px == cell_centre(x) && py == cell_centre(y),
{
    let cells = spawn_cells(g);
    if cells.len() == 0 {
        proof {
            assert forall|x: int, y: int| !spawn_cell(g@, x, y) by {
                if spawn_cell(g@, x, y) {
                    let k = choose|k: int| 0 <= k < cells@.len() && cells@[k] == (x as usize, y as usize);
                }
            }
        }
        return None;
    }
    let k = random_below(cells.len());
    let (x, y) = cells[k];
    assert(spawn_cell(g@, cells@[k as int].0 as int, cells@[k as int].1 as int));
    Some(((x as i64) * UNIT + UNIT / 2, (y as i64) * UNIT + UNIT / 2))
}

/// A connected player: an id chosen by the server, the position last
/// reported (fixed point) and the points of the current round.
#[derive(Clone, Copy, Debug, PartialEq, Eq, Structural)]
pub struct Player {
    pub id: u64,
    pub x: i64,
    pub y: i64,
    pub points: u32,
}

impl Player {
    pub open spec fn wf(&self) -> bool {
        0 <= self.x && 0 <= self.y
    }
}

/// The player stands in the coin's cell.
pub open spec fn on_coin(p: Player, c: (i64, i64)) -> bool {
    p.x / UNIT == c.0 / UNIT && p.y / UNIT == c.1 / UNIT
}

pub open spec fn bump(v: u32) -> u32 {
    if v < u32::MAX { (v + 1) as u32 } else { v }
}

/// State of a coin check: coin positions, points, pickups so far (each
/// uses the next fresh position), and the last player who picked one up.
pub struct Tally {
    pub coins: Seq<(i64, i64)>,
    pub points: Seq<u32>,
    pub taken: int,
    pub who: Option<int>,
}

/// Player `p` tries coin `i`: on a pickup the coin moves to the next fresh
/// position (or stays if there is none) and the player scores.
pub open spec fn try_coin(players: Seq<Player>, fresh: Seq<Option<(i64, i64)>>, st: Tally, p: int, i: int) -> Tally {
    if on_coin(players[p], st.coins[i]) {
        Tally {
            coins: st.coins.update(i, match fresh[st.taken] { Some(c) => c, None => st.coins[i] }),
            points: st.points.update(p, bump(st.points[p])),
            taken: st.taken + 1,
            who: Some(p),
        }
    } else {
        st
    }
}

pub open spec fn after_coins(players: Seq<Player>, fresh: Seq<Option<(i64, i64)>>, st: Tally, p: int, i: nat) -> Tally
    decreases i,
{
    if i == 0 {
        st
    } else {
        try_coin(players, fresh, after_coins(players, fresh, st, p, (i - 1) as nat), p, i - 1)
    }
}

/// The check after the first `p` players, each tried against every coin in
/// order.
pub open spec fn after_players(players: Seq<Player>, coins: Seq<(i64, i64)>, fresh: Seq<Option<(i64, i64)>>, p: nat) -> Tally
    decreases p,
{
    if p == 0 {
        Tally { coins, points: players.map_values(|q: Player| q.points), taken: 0, who: None }
    } else {
        after_coins(players, fresh, after_players(players, coins, fresh, (p - 1) as nat), p - 1, coins.len())
    }
}

proof fn lemma_after_coins_shape(players: Seq<Player>, fresh: Seq<Option<(i64, i64)>>, st: Tally, p: int, i: nat)
    requires
        0 <= p < players.len(),
        i <= st.coins.len(),
        st.points.len() == players.len(),
        st.taken >= 0,
    ensures
        after_coins(players, fresh, st, p, i).coins.len() == st.coins.len(),
        after_coins(players, fresh, st, p, i).points.len() == st.points.len(),
        st.taken <= after_coins(players, fresh, st, p, i).taken <= st.taken + i,
    decreases i,
{
    if i > 0 {
        lemma_after_coins_shape(players, fresh, st, p, (i - 1) as nat);
    }
}

proof fn lemma_after_players_shape(players: Seq<Player>, coins: Seq<(i64, i64)>, fresh: Seq<Option<(i64, i64)>>, p: nat)
    requires
        p <= players.len(),
    ensures
        after_players(players, coins, fresh, p).coins.len() == coins.len(),
        after_players(players, coins, fresh, p).points.len() == players.len(),
        0 <= after_players(players, coins, fresh, p).taken <= p * coins.len(),
    decreases p,
{
    if p > 0 {
        lemma_after_players_shape(players, coins, fresh, (p - 1) as nat);
        lemma_after_coins_shape(players, fresh, after_players(players, coins, fresh, (p - 1) as nat), p - 1, coins.len());
        assert((p - 1) * coins.len() + coins.len() == p * coins.len()) by (nonlinear_arith);
    }
}

/// Tries every player (in order) against every coin (in order).  A player
/// standing in a coin's cell scores a point and the coin moves to the next
/// of `fresh` (or stays where it is if that is `None`).  Returns the last
/// player who picked up a coin.
pub fn collect_coins(players: &mut Vec<Player>, coins: &mut Vec<(i64, i64)>, fresh: &Vec<Option<(i64, i64)>>) -> (who: Option<usize>)
    requires
        old(players)@.len() * old(coins)@.len() <= fresh@.len(),
        forall|k: int| 0 <= k < old(players)@.len() ==> (#[trigger] old(players)@[k]).wf(),
        forall|k: int| 0 <= k < old(coins)@.len() ==> (#[trigger] old(coins)@[k]).0 >= 0 && old(coins)@[k].1 >= 0,
        forall|k: int| 0 <= k < fresh@.len() ==> ((#[trigger] fresh@[k]) matches Some(c) ==> c.0 >= 0 && c.1 >= 0),
    ensures
        final(coins)@ == after_players(old(players)@, old(coins)@, fresh@, old(players)@.len()).coins,
        final(players)@.len() == old(players)@.len(),
        forall|k: int| 0 <= k < final(players)@.len() ==> (#[trigger] final(players)@[k]) == (Player {
            points: after_players(old(players)@, old(coins)@, fresh@, old(players)@.len()).points[k],
            ..old(players)@[k]
        }),
        who matches Some(k) ==> after_players(old(players)@, old(coins)@, fresh@, old(players)@.len()).who == Some(k as int),
        who is None ==> after_players(old(players)@, old(coins)@, fresh@, old(players)@.len()).who is None,
{
    let ghost ps = players@;
    let ghost cs = coins@;
    let nf = fresh.len();
    let mut taken: usize = 0;
    let mut who: Option<usize> = None;
    let mut p: usize = 0;
    while p < players.len()
        invariant
            ps.len() * cs.len() <= fresh@.len(),
            nf == fresh@.len(),
            forall|k: int| 0 <= k < ps.len() ==> (#[trigger] ps[k]).wf(),
            forall|k: int| 0 <= k < fresh@.len() ==> ((#[trigger] fresh@[k]) matches Some(c) ==> c.0 >= 0 && c.1 >= 0),
            forall|k: int| 0 <= k < coins@.len() ==> (#[trigger] coins@[k]).0 >= 0 && coins@[k].1 >= 0,
            players@.len() == ps.len(),
            p <= ps.len(),
            coins@ == after_players(ps, cs, fresh@, p as nat).coins,
            forall|k: int| 0 <= k < ps.len() ==> (#[trigger] players@[k]) == (Player {
                points: after_players(ps, cs, fresh@, p as nat).points[k], ..ps[k] }),
            taken == after_players(ps, cs, fresh@, p as nat).taken,
            who matches Some(k) ==> after_players(ps, cs, fresh@, p as nat).who == Some(k as int),
            who is None ==> after_players(ps, cs, fresh@, p as nat).who is None,
        decreases ps.len() - p,
    {
        proof {
            lemma_after_players_shape(ps, cs, fresh@, p as nat);
        }
        let ghost st0 = after_players(ps, cs, fresh@, p as nat);
        let mut i: usize = 0;
        while i < coins.len()
            invariant
                ps.len() * cs.len() <= fresh@.len(),
                nf == fresh@.len(),
                forall|k: int| 0 <= k < ps.len() ==> (#[trigger] ps[k]).wf(),
                forall|k: int| 0 <= k < fresh@.len() ==> ((#[trigger] fresh@[k]) matches Some(c) ==> c.0 >= 0 && c.1 >= 0),
                forall|k: int| 0 <= k < coins@.len() ==> (#[trigger] coins@[k]).0 >= 0 && coins@[k].1 >= 0,
                coins@.len() == cs.len(),
                players@.len() == ps.len(),
                p < ps.len(),
                st0 == after_players(ps, cs, fresh@, p as nat),
                st0.coins.len() == cs.len(),
                st0.points.len() == ps.len(),
                0 <= st0.taken <= p * cs.len(),
                i <= cs.len(),
                coins@ == after_coins(ps, fresh@, st0, p as int, i as nat).coins,
                forall|k: int| 0 <= k < ps.len() ==> (#[trigger] players@[k]) == (Player {
                    points: after_coins(ps, fresh@, st0, p as int, i as nat).points[k], ..ps[k] }),
                taken == after_coins(ps, fresh@, st0, p as int, i as nat).taken,
                who matches Some(k) ==> after_coins(ps, fresh@, st0, p as int, i as nat).who == Some(k as int),
                who is None ==> after_coins(ps, fresh@, st0, p as int, i as nat).who is None,
            decreases cs.len() - i,
        {
            proof {
                lemma_after_coins_shape(ps, fresh@, st0, p as int, i as nat);
                assert(p * cs.len() + i < ps.len() * cs.len()) by (nonlinear_arith)
                    requires p < ps.len(), i < cs.len();
            }
            let ghost st = after_coins(ps, fresh@, st0, p as int, i as nat);
            assert(taken < fresh@.len());
            assert(taken < nf);
            let pl = players[p];
            assert(pl.x == ps[p as int].x && pl.y == ps[p as int].y);
            let c = coins[i];
            if pl.x / UNIT == c.0 / UNIT && pl.y / UNIT == c.1 / UNIT {
                assert(on_coin(ps[p as int], st.coins[i as int]));
                match fresh[taken] {
                    Some(n) => coins.set(i, n),
                    None => {},
                }
                let pts = if pl.points < u32::MAX { pl.points + 1 } else { pl.points };
                players.set(p, Player { points: pts, ..pl });
                taken = taken + 1;
                who = Some(p);
                proof {
                    let nst = try_coin(ps, fresh@, st, p as int, i as int);
                    assert(coins@ =~= nst.coins);
                    assert forall|k: int| 0 <= k < ps.len() implies (#[trigger] players@[k]) == (Player {
                        points: nst.points[k], ..ps[k] }) by {
                    }
                }
            } else {
                assert(!on_coin(ps[p as int], st.coins[i as int]));
            }
            i += 1;
        }
        p += 1;
    }
    who
}

/// What the server tells every player after a coin check.
#[derive(Clone, Copy, Debug, PartialEq, Eq, Structural)]
pub enum Announcement {
    Nothing,
    /// The given number of coins of the round have been found; the last
    /// by this player.
    Coin(u32, u64),
    /// The round is over and this player has the most points.
    Winner(u64),
}

/// Player `k` has the most points, and is the last such player.
pub open spec fn is_best(players: Seq<Player>, k: int) -> bool {
    &&& 0 <= k < players.len()
    &&& forall|j: int| 0 <= j < players.len() ==> (#[trigger] players[j]).points <= players[k].points
    &&& forall|j: int| k < j < players.len() ==> (#[trigger] players[j]).points < players[k].points
}

/// The players with the points of a coin check.
pub open spec fn scored(players: Seq<Player>, t: Tally) -> Seq<Player> {
    Seq::new(players.len(), |k: int| Player { points: t.points[k], ..players[k] })
}

/// The outcome of a check in which `who` picked up the last coin: the
/// count of coins found goes up, and the third coin of a round names the
/// winner and clears every player's points.
pub open spec fn round_outcome(found: u32, players: Seq<Player>, who: Option<int>, r: (u32, Announcement), after: Seq<Player>) -> bool {
    match who {
        None => r == (found, Announcement::Nothing) && after == players,
        Some(k) => if found + 1 < COINS_PER_ROUND {
            r == ((found + 1) as u32, Announcement::Coin((found + 1) as u32, players[k].id)) && after == players
        } else {
            &&& r.0 == 0
            &&& exists|b: int| #[trigger] is_best(players, b) && r.1 == Announcement::Winner(players[b].id)
            &&& after.len() == players.len()
            &&& forall|i: int| 0 <= i < players.len() ==> #[trigger] after[i] == (Player { points: 0, ..players[i] })
        },
    }
}

/// The player with the most points (the last one, on a tie).
pub fn best_player(players: &Vec<Player>) -> (k: usize)
    requires
        players@.len() > 0,
    ensures
        is_best(players@, k as int),
{
    let mut k: usize = 0;
    let mut i: usize = 1;
    while i < players.len()
        invariant
            1 <= i <= players@.len(),
            k < i,
            forall|j: int| 0 <= j < i ==> (#[trigger] players@[j]).points <= players@[k as int].points,
            forall|j: int| k < j < i ==> (#[trigger] players@[j]).points < players@[k as int].points,
        decreases players@.len() - i,
    {
        if players[i].points >= players[k].points {
            k = i;
        }
        i += 1;
    }
    k
}

/// Counts a coin pickup by `who` (if any) and ends the round at the third
/// coin.
pub fn settle_round(found: u32, players: &mut Vec<Player>, who: Option<usize>) -> (r: (u32, Announcement))
    requires
        found < COINS_PER_ROUND,
        who matches Some(k) ==> k < old(players)@.len(),
    ensures
        round_outcome(found, old(players)@, match who { Some(k) => Some(k as int), None => None }, r, final(players)@),
{
    match who {
        None => (found, Announcement::Nothing),
        Some(k) => {
            let n = found + 1;
            if n < COINS_PER_ROUND {
                (n, Announcement::Coin(n, players[k].id))
            } else {
                let b = best_player(players);
                let id = players[b].id;
                assert(is_best(old(players)@, b as int));
                let mut i: usize = 0;
                while i < players.len()
                    invariant
                        players@.len() == old(players)@.len(),
                        i <= players@.len(),
                        forall|j: int| 0 <= j < i ==> #[trigger] players@[j] == (Player { points: 0, ..old(players)@[j] }),
                        forall|j: int| i <= j < players@.len() ==> #[trigger] players@[j] == old(players)@[j],
                    decreases players@.len() - i,
                {
                    let pl = players[i];
                    players.set(i, Player { points: 0, ..pl });
                    i += 1;
                }
                (0, Announcement::Winner(id))
            }
        },
    }
}

/// Relocations for a coin check: each is the centre of an empty cell of
/// the spawn square, or `None` only when there is no such cell.
pub open spec fn fresh_ok(g: Seq<Vec<u8>>, fresh: Seq<Option<(i64, i64)>>, n: int) -> bool {
    &&& fresh.len() == n
    &&& forall|k: int| 0 <= k < n ==> match #[trigger] fresh[k] {
        Some(c) => exists|x: int, y: int| #[trigger] spawn_cell(g, x, y) && c.0 == cell_centre(x) && c.1 == cell_centre(y),
        None => forall|x: int, y: int| !spawn_cell(g, x, y),
    }
}

/// The server's coin check: every player standing on a coin picks it up
/// and the coin moves to a random empty cell of the spawn square; then the
/// pickup is counted.  Returns the new count and what to announce.  A check
/// draws one random cell for every player and coin pair, so that count
/// must fit in `usize`.
pub fn check_gold_coins(found: u32, g: &Vec<Vec<u8>>, coins: &mut Vec<(i64, i64)>, players: &mut Vec<Player>) -> (r: (u32, Announcement))
    requires
        grid_wf(g@),
        found < COINS_PER_ROUND,
        old(players)@.len() * old(coins)@.len() <= usize::MAX,
        forall|k: int| 0 <= k < old(players)@.len() ==> (#[trigger] old(players)@[k]).wf(),
        forall|k: int| 0 <= k < old(coins)@.len() ==> (#[trigger] old(coins)@[k]).0 >= 0 && old(coins)@[k].1 >= 0,
    ensures
        exists|fresh: Seq<Option<(i64, i64)>>| #[trigger] fresh_ok(g@, fresh, (old(players)@.len() * old(coins)@.len()) as int) && {
            let t = after_players(old(players)@, old(coins)@, fresh, old(players)@.len());
            &&& final(coins)@ == t.coins
            &&& round_outcome(found, scored(old(players)@, t), t.who, r, final(players)@)
        },
{
    let n = players.len() * coins.len();
    let mut fresh: Vec<Option<(i64, i64)>> = Vec::new();
    while fresh.len() < n
        invariant
            grid_wf(g@),
            fresh@.len() <= n,
            forall|k: int| 0 <= k < fresh@.len() ==> match #[trigger] fresh@[k] {
                Some(c) => exists|x: int, y: int| #[trigger] spawn_cell(g@, x, y) && c.0 == cell_centre(x) && c.1 == cell_centre(y),
                None => forall|x: int, y: int| !spawn_cell(g@, x, y),
            },
        decreases n - fresh@.len(),
    {
        let ghost before = fresh@;
        let c = random_position(g);
        fresh.push(c);
        proof {
            assert forall|k: int| 0 <= k < fresh@.len() implies match #[trigger] fresh@[k] {
                Some(c) => exists|x: int, y: int| #[trigger] spawn_cell(g@, x, y) && c.0 == cell_centre(x) && c.1 == cell_centre(y),
                None => forall|x: int, y: int| !spawn_cell(g@, x, y),
            } by {
                if k < before.len() {
                    assert(fresh@[k] == before[k]);
                }
            }
        }
    }
    assert(fresh_ok(g@, fresh@, (old(players)@.len() * old(coins)@.len()) as int));
    assert forall|k: int| 0 <= k < fresh@.len() implies ((#[trigger] fresh@[k]) matches Some(c) ==> c.0 >= 0 && c.1 >= 0) by {
        if let Some(c) = fresh@[k] {
            let (x, y) = choose|x: int, y: int| #[trigger] spawn_cell(g@, x, y) && c.0 == cell_centre(x) && c.1 == cell_centre(y);
        }
    }
    let ghost ps = players@;
    let who = collect_coins(players, coins, &fresh);
    let ghost t = after_players(ps, old(coins)@, fresh@, ps.len());
    proof {
        lemma_after_players_shape(ps, old(coins)@, fresh@, ps.len());
        assert(players@ =~= scored(ps, t));
        if let Some(k) = t.who {
            lemma_who_in_range(ps, old(coins)@, fresh@, ps.len());
        }
    }
    settle_round(found, players, who)
}

proof fn lemma_who_in_range(players: Seq<Player>, coins: Seq<(i64, i64)>, fresh: Seq<Option<(i64, i64)>>, p: nat)
    requires
        p <= players.len(),
    ensures
        after_players(players, coins, fresh, p).who matches Some(k) ==> 0 <= k < p,
    decreases p,
{
    if p > 0 {
        lemma_who_in_range(players, coins, fresh, (p - 1) as nat);
        lemma_who_coins(players, fresh, after_players(players, coins, fresh, (p - 1) as nat), p - 1, coins.len());
    }
}

proof fn lemma_who_coins(players: Seq<Player>, fresh: Seq<Option<(i64, i64)>>, st: Tally, p: int, i: nat)
    ensures
        after_coins(players, fresh, st, p, i).who == st.who || after_coins(players, fresh, st, p, i).who == Some(p),
    decreases i,
{
    if i > 0 {
        lemma_who_coins(players, fresh, st, p, (i - 1) as nat);
    }
}

} // verus!
