//! The life of a pickup: collision with a player, expiry of its countdown,
//! and the search for a free cell on which its replacement appears.

use crate::board::{Board, BoardCache, BoardPosition, Elevation, EntityRef};
use crate::Game;
use rand::Rng;
use vstd::prelude::*;

verus! {

/// Seconds that a fresh pickup stays before it expires.
pub const PICKUP_LIFETIME_SECS: u64 = 5;

/// Points that an expired pickup costs.
pub const EXPIRY_PENALTY: i32 = 10;

/// A pickup as one frame sees it.
#[derive(Clone, Copy, Debug, PartialEq, Eq, Structural)]
pub struct Pickup {
    pub entity: EntityRef,
    pub position: BoardPosition,
    /// The countdown has run out. This is the state of the timer, not the
    /// event: it is set on the frame on which the countdown elapses and stays
    /// set on every later frame.
    pub expired: bool,
    /// Marked for removal and replacement.
    pub despawn: bool,
}

/// The removal of one marked pickup and the cell of its replacement, if the
/// search found one, with the elevation that the cache gives for that cell.
/// The replacement floats a little above that elevation.
#[derive(Clone, Copy, Debug, PartialEq, Eq, Structural)]
pub struct Respawn {
    pub removed: EntityRef,
    pub cell: Option<BoardPosition>,
    pub height: Elevation,
}

/// The elevation that goes with a replacement: that of its cell in `cache`,
/// or zero where no cell was found.
pub open spec fn respawn_height(cache: &BoardCache, cell: Option<BoardPosition>) -> Elevation {
    match cell {
        Some(cell) => cache.height_at(cell.x as int, cell.y as int),
        None => Elevation::spec_zero(),
    }
}

/// `Rng::gen_range` on `rand::thread_rng()` with the range `0..bound`: some
/// number below `bound`. Which one is left open; an empty range, on which
/// the call panics, is excluded.
#[verifier::external_body]
fn random_below(bound: usize) -> (n: usize)
    requires
        bound > 0,
    ensures
        n < bound,
{
    rand::thread_rng().gen_range(0..bound)
}

/// The record of a pickup that was just spawned on `(x, y)`.
pub fn spawn_a_pickup(entity: EntityRef, x: usize, y: usize) -> (pickup: Pickup)
    ensures
        pickup == (Pickup {
            entity,
            position: BoardPosition { x, y },
            expired: false,
            despawn: false,
        }),
{
    Pickup { entity, position: BoardPosition { x, y }, expired: false, despawn: false }
}

/// How many of `players` stand on `cell`.
pub open spec fn players_at(players: Seq<BoardPosition>, cell: BoardPosition) -> nat
    decreases players.len(),
{
    if players.len() == 0 {
        0
    } else {
        players_at(players.drop_last(), cell) + if players.last() == cell {
            1nat
        } else {
            0nat
        }
    }
}

/// How many players collect `pickup` this frame: those on its cell, and none
/// if it is already marked.
pub open spec fn hits(players: Seq<BoardPosition>, pickup: Pickup) -> nat {
    if pickup.despawn {
        0
    } else {
        players_at(players, pickup.position)
    }
}

/// The number of pairs of a player and an unmarked pickup on one cell.
pub open spec fn total_hits(players: Seq<BoardPosition>, pickups: Seq<Pickup>) -> nat
    decreases pickups.len(),
{
    if pickups.len() == 0 {
        0
    } else {
        total_hits(players, pickups.drop_last()) + hits(players, pickups.last())
    }
}

/// `pickup` after the collision check: marked if it was, or if a player
/// stands on its cell.
pub open spec fn collided(players: Seq<BoardPosition>, pickup: Pickup) -> Pickup {
    Pickup { despawn: pickup.despawn || players_at(players, pickup.position) > 0, ..pickup }
}

/// How many of `players` stand on `cell`.
pub fn count_players_at(players: &Vec<BoardPosition>, cell: BoardPosition) -> (n: usize)
    ensures
        n == players_at(players@, cell),
{
    let mut n: usize = 0;
    let mut j: usize = 0;
    while j < players.len()
        invariant
            j <= players.len(),
            n <= j,
            n == players_at(players@.take(j as int), cell),
        decreases players.len() - j,
    {
        proof {
            assert(players@.take(j + 1).drop_last() =~= players@.take(j as int));
        }
        if players[j] == cell {
            n += 1;
        }
        j += 1;
    }
    proof {
        assert(players@.take(j as int) =~= players@);
    }
    n
}

/// The number of pairs of a player and an unmarked pickup on one cell.
pub fn count_hits(players: &Vec<BoardPosition>, pickups: &Vec<Pickup>) -> (n: u128)
    ensures
        n == total_hits(players@, pickups@),
{
    let mut n: u128 = 0;
    let mut i: usize = 0;
    while i < pickups.len()
        invariant
            i <= pickups.len(),
            n <= i * usize::MAX,
            n == total_hits(players@, pickups@.take(i as int)),
        decreases pickups.len() - i,
    {
        proof {
            assert(pickups@.take(i + 1).drop_last() =~= pickups@.take(i as int));
            assert((i + 1) * usize::MAX <= usize::MAX * usize::MAX) by (nonlinear_arith)
                requires
                    i + 1 <= usize::MAX,
            ;
            assert(usize::MAX * usize::MAX <= 0xFFFF_FFFF_FFFF_FFFF * 0xFFFF_FFFF_FFFF_FFFF)
                by (nonlinear_arith)
                requires
                    usize::MAX <= 0xFFFF_FFFF_FFFF_FFFF,
            ;
            assert((i + 1) * usize::MAX == i * usize::MAX + usize::MAX) by (nonlinear_arith);
        }
        let pickup = pickups[i];
        if !pickup.despawn {
            let here = count_players_at(players, pickup.position);
            n = n + here as u128;
        }
        i += 1;
    }
    proof {
        assert(pickups@.take(i as int) =~= pickups@);
    }
    n
}

/// The collision check. Every pair of a player and an unmarked pickup on one
/// cell adds one to the score and one to the cake eaten; every pickup that a
/// player stands on is marked for removal.
pub fn pickup_collide(game: &mut Game, players: &Vec<BoardPosition>, pickups: &mut Vec<Pickup>)
    requires
        old(game).score + total_hits(players@, old(pickups)@) <= i32::MAX,
        old(game).cake_eaten + total_hits(players@, old(pickups)@) <= u32::MAX,
    ensures
        *final(game) == (Game {
            score: (old(game).score + total_hits(players@, old(pickups)@)) as i32,
            cake_eaten: (old(game).cake_eaten + total_hits(players@, old(pickups)@)) as u32,
            ..*old(game)
        }),
        final(pickups)@.len() == old(pickups)@.len(),
        forall|i: int|
            0 <= i < old(pickups)@.len() ==> #[trigger] final(pickups)@[i] == collided(
                players@,
                old(pickups)@[i],
            ),
{
    let total = count_hits(players, pickups);
    let score = game.score as i64 + total as i64;
    game.score = score as i32;
    game.cake_eaten = game.cake_eaten + total as u32;
    let mut i: usize = 0;
    while i < pickups.len()
        invariant
            i <= pickups.len(),
            pickups@.len() == old(pickups)@.len(),
            forall|k: int|
                0 <= k < i ==> #[trigger] pickups@[k] == collided(players@, old(pickups)@[k]),
            forall|k: int| i <= k < pickups@.len() ==> #[trigger] pickups@[k] == old(pickups)@[k],
        decreases pickups.len() - i,
    {
        let pickup = pickups[i];
        if !pickup.despawn && count_players_at(players, pickup.position) > 0 {
            pickups.set(i, Pickup { despawn: true, ..pickup });
        }
        i += 1;
    }
}

/// Whether the expiry check charges `pickup`: its countdown has run out and
/// it is not yet marked. A pickup that was charged is marked, so it is
/// charged once however long it stays.
pub open spec fn charged(pickup: Pickup) -> bool {
    pickup.expired && !pickup.despawn
}

/// How many of `pickups` the expiry check charges.
pub open spec fn expired_count(pickups: Seq<Pickup>) -> nat
    decreases pickups.len(),
{
    if pickups.len() == 0 {
        0
    } else {
        expired_count(pickups.drop_last()) + if charged(pickups.last()) {
            1nat
        } else {
            0nat
        }
    }
}

/// `pickup` after the expiry check: marked if it was, or if its countdown
/// has run out.
pub open spec fn expired_mark(pickup: Pickup) -> Pickup {
    Pickup { despawn: pickup.despawn || pickup.expired, ..pickup }
}

/// How many of `pickups` the expiry check charges.
pub fn count_expired(pickups: &Vec<Pickup>) -> (n: usize)
    ensures
        n == expired_count(pickups@),
{
    let mut n: usize = 0;
    let mut i: usize = 0;
    while i < pickups.len()
        invariant
            i <= pickups.len(),
            n <= i,
            n == expired_count(pickups@.take(i as int)),
        decreases pickups.len() - i,
    {
        proof {
            assert(pickups@.take(i + 1).drop_last() =~= pickups@.take(i as int));
        }
        if pickups[i].expired && !pickups[i].despawn {
            n += 1;
        }
        i += 1;
    }
    proof {
        assert(pickups@.take(i as int) =~= pickups@);
    }
    n
}

/// Marks every pickup whose countdown has run out and changes nothing else.
pub fn mark_expired(pickups: &mut Vec<Pickup>)
    ensures
        final(pickups)@.len() == old(pickups)@.len(),
        forall|i: int|
            0 <= i < old(pickups)@.len() ==> #[trigger] final(pickups)@[i] == expired_mark(
                old(pickups)@[i],
            ),
{
    let mut i: usize = 0;
    while i < pickups.len()
        invariant
            i <= pickups.len(),
            pickups@.len() == old(pickups)@.len(),
            forall|k: int| 0 <= k < i ==> #[trigger] pickups@[k] == expired_mark(old(pickups)@[k]),
            forall|k: int| i <= k < pickups@.len() ==> #[trigger] pickups@[k] == old(pickups)@[k],
        decreases pickups.len() - i,
    {
        let pickup = pickups[i];
        if pickup.expired {
            pickups.set(i, Pickup { despawn: true, ..pickup });
        }
        i += 1;
    }
}

/// The expiry check. Every unmarked pickup whose countdown has run out costs
/// ten points, and every pickup whose countdown has run out is marked for
/// removal. A pickup that is already marked costs nothing more.
pub fn expire_pickups(game: &mut Game, pickups: &mut Vec<Pickup>)
    requires
        old(game).score - EXPIRY_PENALTY * expired_count(old(pickups)@) >= i32::MIN,
    ensures
        *final(game) == (Game {
            score: (old(game).score - EXPIRY_PENALTY * expired_count(old(pickups)@)) as i32,
            ..*old(game)
        }),
        final(pickups)@.len() == old(pickups)@.len(),
        forall|i: int|
            0 <= i < old(pickups)@.len() ==> #[trigger] final(pickups)@[i] == expired_mark(
                old(pickups)@[i],
            ),
{
    let due = count_expired(pickups);
    mark_expired(pickups);
    let score = game.score as i128 - 10 * (due as i128);
    game.score = score as i32;
}

/// After the expiry check nothing is left to charge: a second check on the
/// same pickups leaves the score alone.
pub proof fn lemma_expiry_charges_once(before: Seq<Pickup>, after: Seq<Pickup>)
    requires
        after.len() == before.len(),
        forall|i: int| 0 <= i < before.len() ==> after[i] == expired_mark(before[i]),
    ensures
        expired_count(after) == 0,
    decreases before.len(),
{
    if before.len() > 0 {
        lemma_expiry_charges_once(before.drop_last(), after.drop_last());
    }
}

/// Whether `cell` occurs in `cells`.
pub fn contains_cell(cells: &Vec<BoardPosition>, cell: BoardPosition) -> (found: bool)
    ensures
        found == cells@.contains(cell),
{
    let mut i: usize = 0;
    while i < cells.len()
        invariant
            i <= cells.len(),
            forall|k: int| 0 <= k < i ==> cells@[k] != cell,
        decreases cells.len() - i,
    {
        if cells[i] == cell {
            return true;
        }
        i += 1;
    }
    false
}

/// Judges one draw of the search: the drawn cell is taken unless it is
/// restricted.
pub fn accept_draw(x: usize, y: usize, restricted: &Vec<BoardPosition>) -> (cell: Option<
    BoardPosition,
>)
    ensures
        cell == if restricted@.contains(BoardPosition { x, y }) {
            None::<BoardPosition>
        } else {
            Some(BoardPosition { x, y })
        },
{
    let drawn = BoardPosition { x, y };
    if contains_cell(restricted, drawn) {
        None
    } else {
        Some(drawn)
    }
}

/// Searches a free cell by rejection sampling: draws a cell of the board and
/// tries again while the draw is restricted, up to `max_attempts` draws. A
/// cell that comes back is free; the first draw is taken where no cell of the
/// board is restricted; a search that fails has drawn a restricted cell.
pub fn find_free_cell(board: &Board, restricted: &Vec<BoardPosition>, max_attempts: usize) -> (cell:
    Option<BoardPosition>)
    ensures
        cell is Some ==> board.contains(cell->0) && !restricted@.contains(cell->0),
        board.width == 0 || board.height == 0 || max_attempts == 0 ==> cell is None,
        board.width > 0 && board.height > 0 && max_attempts > 0 && all_free(board, restricted@)
            ==> cell is Some,
{
    if board.width == 0 || board.height == 0 {
        return None;
    }
    let mut attempt: usize = 0;
    while attempt < max_attempts
        invariant
            board.width > 0,
            board.height > 0,
            attempt > 0 ==> !all_free(board, restricted@),
        decreases max_attempts - attempt,
    {
        let x = random_below(board.width);
        let y = random_below(board.height);
        match accept_draw(x, y, restricted) {
            Some(cell) => {
                return Some(cell);
            },
            None => {
                assert(board.contains(BoardPosition { x, y }));
                assert(restricted@.contains(BoardPosition { x, y }));
            },
        }
        attempt += 1;
    }
    None
}

/// No cell of `board` is restricted, so every draw of the search is taken.
pub open spec fn all_free(board: &Board, restricted: Seq<BoardPosition>) -> bool {
    forall|cell: BoardPosition|
        board.contains(cell) ==> !#[trigger] restricted.contains(cell)
}

/// The cells of `pickups`, in order.
pub open spec fn positions(pickups: Seq<Pickup>) -> Seq<BoardPosition> {
    Seq::new(pickups.len(), |i: int| pickups[i].position)
}

/// The cells that are taken when a sweep begins: those of all players and of
/// all pickups.
pub open spec fn occupied(players: Seq<BoardPosition>, pickups: Seq<Pickup>) -> Seq<
    BoardPosition,
> {
    players + positions(pickups)
}

/// The entities of the pickups that are marked for removal, in order.
pub open spec fn marked_entities(pickups: Seq<Pickup>) -> Seq<EntityRef>
    decreases pickups.len(),
{
    if pickups.len() == 0 {
        Seq::empty()
    } else if pickups.last().despawn {
        marked_entities(pickups.drop_last()).push(pickups.last().entity)
    } else {
        marked_entities(pickups.drop_last())
    }
}

proof fn lemma_push_keeps<T>(s: Seq<T>, x: T, y: T)
    requires
        s.contains(y),
    ensures
        s.push(x).contains(y),
{
    let i = choose|i: int| 0 <= i < s.len() && s[i] == y;
    assert(s.push(x)[i] == y);
}

/// What a sweep over `pickups` on `board` hands back. There is one entry for
/// every marked pickup, in order. A cell that is handed out lies on the
/// board, was taken by no player and no pickup when the sweep began, and
/// differs from every cell handed out before it. No cell is found on a board
/// without cells or with no draw allowed; the first marked pickup gets one
/// where no cell of the board was taken when the sweep began.
pub open spec fn sweep_plan(
    board: Board,
    cache: &BoardCache,
    players: Seq<BoardPosition>,
    pickups: Seq<Pickup>,
    max_attempts: usize,
    plan: Seq<Respawn>,
) -> bool {
    &&& plan.len() == marked_entities(pickups).len()
    &&& forall|k: int|
        0 <= k < plan.len() ==> (#[trigger] plan[k]).height == respawn_height(cache, plan[k].cell)
    &&& forall|k: int|
        0 <= k < plan.len() ==> (#[trigger] plan[k]).removed == marked_entities(pickups)[k]
    &&& forall|k: int|
        0 <= k < plan.len() && (#[trigger] plan[k]).cell is Some ==> board.contains(
            plan[k].cell->0,
        ) && !occupied(players, pickups).contains(plan[k].cell->0)
    &&& forall|j: int, k: int|
        0 <= j < k < plan.len() && (#[trigger] plan[k]).cell is Some ==> (#[trigger] plan[j]).cell
            != plan[k].cell
    &&& board.width == 0 || board.height == 0 || max_attempts == 0 ==> forall|k: int|
        0 <= k < plan.len() ==> (#[trigger] plan[k]).cell is None
    &&& board.width > 0 && board.height > 0 && max_attempts > 0 && plan.len() > 0 && all_free(
        &board,
        occupied(players, pickups),
    ) ==> plan[0].cell is Some
}

/// The respawn sweep. Every marked pickup is removed, in order, and gets a
/// replacement on a cell found by `find_free_cell`. The cells that were taken
/// by a player or a pickup when the sweep began stay restricted throughout,
/// and each cell handed out is restricted for the rest of the sweep. Without
/// a board or without a cache the sweep is skipped: nothing is removed.
pub fn respawn_pickups(
    board: Option<Board>,
    cache: Option<&BoardCache>,
    players: &Vec<BoardPosition>,
    pickups: &Vec<Pickup>,
    max_attempts: usize,
) -> (plan: Vec<Respawn>)
    ensures
        board is Some && cache is Some ==> sweep_plan(
            board->0,
            cache->0,
            players@,
            pickups@,
            max_attempts,
            plan@,
        ),
        board is None || cache is None ==> plan@.len() == 0,
{
    let board = match board {
        Some(board) => board,
        None => {
            return Vec::new();
        },
    };
    let cache = match cache {
        Some(cache) => cache,
        None => {
            return Vec::new();
        },
    };
    let mut restricted: Vec<BoardPosition> = Vec::new();
    let mut j: usize = 0;
    while j < players.len()
        invariant
            j <= players.len(),
            restricted@ == players@.take(j as int),
        decreases players.len() - j,
    {
        restricted.push(players[j]);
        proof {
            assert(restricted@ =~= players@.take(j + 1));
        }
        j += 1;
    }
    let mut i: usize = 0;
    while i < pickups.len()
        invariant
            j == players.len(),
            i <= pickups.len(),
            restricted@ == players@.take(j as int) + positions(pickups@.take(i as int)),
        decreases pickups.len() - i,
    {
        restricted.push(pickups[i].position);
        proof {
            assert(restricted@ =~= players@.take(j as int) + positions(pickups@.take(i + 1)));
        }
        i += 1;
    }
    let ghost base = restricted@;
    proof {
        assert(players@.take(j as int) =~= players@);
        assert(pickups@.take(i as int) =~= pickups@);
        assert(base == occupied(players@, pickups@));
    }
    let mut plan: Vec<Respawn> = Vec::new();
    i = 0;
    while i < pickups.len()
        invariant
            i <= pickups.len(),
            plan@.len() == marked_entities(pickups@.take(i as int)).len(),
            forall|k: int|
                0 <= k < plan@.len() ==> (#[trigger] plan@[k]).removed == marked_entities(
                    pickups@.take(i as int),
                )[k],
            base.len() <= restricted@.len(),
            forall|k: int|
                0 <= k < plan@.len() ==> (#[trigger] plan@[k]).height == respawn_height(
                    cache,
                    plan@[k].cell,
                ),
            plan@.len() == 0 ==> restricted@ == base,
            plan@.len() > 0 && board.width > 0 && board.height > 0 && max_attempts > 0 && all_free(
                &board,
                base,
            ) ==> plan@[0].cell is Some,
            forall|b: int| 0 <= b < base.len() ==> restricted@[b] == base[b],
            forall|k: int|
                0 <= k < plan@.len() && (#[trigger] plan@[k]).cell is Some ==> board.contains(
                    plan@[k].cell->0,
                ) && !base.contains(plan@[k].cell->0) && restricted@.contains(plan@[k].cell->0),
            forall|a: int, k: int|
                0 <= a < k < plan@.len() && (#[trigger] plan@[k]).cell is Some ==> (
                #[trigger] plan@[a]).cell != plan@[k].cell,
            board.width == 0 || board.height == 0 || max_attempts == 0 ==> forall|k: int|
                0 <= k < plan@.len() ==> (#[trigger] plan@[k]).cell is None,
        decreases pickups.len() - i,
    {
        proof {
            assert(pickups@.take(i + 1).drop_last() =~= pickups@.take(i as int));
        }
        if pickups[i].despawn {
            let cell = find_free_cell(&board, &restricted, max_attempts);
            let ghost before = restricted@;
            let ghost planned = plan@;
            match cell {
                Some(free) => {
                    restricted.push(free);
                    proof {
                        assert(restricted@[before.len() as int] == free);
                        if base.contains(free) {
                            let b = choose|b: int| 0 <= b < base.len() && base[b] == free;
                            assert(before[b] == free);
                        }
                        assert forall|k: int|
                            0 <= k < planned.len() && (#[trigger] planned[k]).cell is Some implies (
                        restricted@.contains(planned[k].cell->0) && planned[k].cell != cell) by {
                            lemma_push_keeps(before, free, planned[k].cell->0);
                        }
                    }
                },
                None => {},
            }
            let height = match cell {
                Some(free) => cache.get_height(free.x, free.y),
                None => Elevation::zero(),
            };
            plan.push(Respawn { removed: pickups[i].entity, cell, height });
            proof {
                assert(forall|k: int| 0 <= k < planned.len() ==> plan@[k] == planned[k]);
            }
        }
        i += 1;
    }
    proof {
        assert(pickups@.take(i as int) =~= pickups@);
    }
    plan
}

/// One frame of the pickup pipeline in its fixed order: the collision check,
/// then the expiry check, then the respawn sweep over what the two have
/// marked. The score gains one for every collecting pair and loses ten for
/// every pickup whose countdown has run out and that was not marked when the
/// frame began, collected in this frame or not. Without a board or a cache
/// only the sweep is skipped.
pub fn run_pickups(
    game: &mut Game,
    board: Option<Board>,
    cache: Option<&BoardCache>,
    players: &Vec<BoardPosition>,
    pickups: &mut Vec<Pickup>,
    max_attempts: usize,
) -> (plan: Vec<Respawn>)
    requires
        old(game).score + total_hits(players@, old(pickups)@) <= i32::MAX,
        old(game).cake_eaten + total_hits(players@, old(pickups)@) <= u32::MAX,
        old(game).score + total_hits(players@, old(pickups)@) - EXPIRY_PENALTY * expired_count(
            old(pickups)@,
        ) >= i32::MIN,
    ensures
        *final(game) == (Game {
            score: (old(game).score + total_hits(players@, old(pickups)@) - EXPIRY_PENALTY
                * expired_count(old(pickups)@)) as i32,
            cake_eaten: (old(game).cake_eaten + total_hits(players@, old(pickups)@)) as u32,
            ..*old(game)
        }),
        final(pickups)@.len() == old(pickups)@.len(),
        forall|i: int|
            0 <= i < old(pickups)@.len() ==> #[trigger] final(pickups)@[i] == expired_mark(
                collided(players@, old(pickups)@[i]),
            ),
        board is Some && cache is Some ==> sweep_plan(
            board->0,
            cache->0,
            players@,
            final(pickups)@,
            max_attempts,
            plan@,
        ),
        board is None || cache is None ==> plan@.len() == 0,
{
    let due = count_expired(pickups);
    pickup_collide(game, players, pickups);
    mark_expired(pickups);
    let score = game.score as i128 - 10 * (due as i128);
    game.score = score as i32;
    respawn_pickups(board, cache, players, pickups, max_attempts)
}

/// The unmarked pickups of `pickups` that stand on `cell`.
pub open spec fn unmarked_on(pickups: Seq<Pickup>, cell: BoardPosition) -> nat
    decreases pickups.len(),
{
    if pickups.len() == 0 {
        0
    } else {
        unmarked_on(pickups.drop_last(), cell) + if !pickups.last().despawn
            && pickups.last().position == cell {
            1nat
        } else {
            0nat
        }
    }
}

/// With one player the collision check counts exactly the unmarked pickups
/// on the player's cell, marks exactly those among the unmarked ones, and
/// changes nothing else of any pickup.
pub proof fn lemma_one_player_collects(player: BoardPosition, pickups: Seq<Pickup>)
    ensures
        total_hits(seq![player], pickups) == unmarked_on(pickups, player),
        forall|i: int|
            0 <= i < pickups.len() ==> #[trigger] collided(seq![player], pickups[i]) == (Pickup {
                despawn: pickups[i].despawn || pickups[i].position == player,
                ..pickups[i]
            }),
    decreases pickups.len(),
{
    let players = seq![player];
    assert(players.drop_last().len() == 0);
    assert forall|cell: BoardPosition| #[trigger]
        players_at(players, cell) == (if cell == player {
            1nat
        } else {
            0nat
        }) by {
        assert(players.last() == player);
        assert(players_at(players.drop_last(), cell) == 0);
    }
    if pickups.len() > 0 {
        lemma_one_player_collects(player, pickups.drop_last());
    }
}

/// A player and an unmarked pickup on one cell score in the same frame: the
/// collision check counts at least that pair, and it marks the pickup.
pub proof fn lemma_shared_cell_scores(
    players: Seq<BoardPosition>,
    pickups: Seq<Pickup>,
    p: int,
    k: int,
)
    requires
        0 <= p < players.len(),
        0 <= k < pickups.len(),
        players[p] == pickups[k].position,
        !pickups[k].despawn,
    ensures
        players_at(players, pickups[k].position) >= 1,
        total_hits(players, pickups) >= 1,
        collided(players, pickups[k]).despawn,
        players.len() == 1 && pickups.len() == 1 ==> total_hits(players, pickups) == 1,
    decreases players.len() + pickups.len(),
{
    let cell = pickups[k].position;
    lemma_player_counts(players, cell, p);
    lemma_hits_add_up(players, pickups, k);
    if players.len() == 1 && pickups.len() == 1 {
        assert(players.drop_last().len() == 0);
        assert(pickups.drop_last().len() == 0);
        assert(players_at(players.drop_last(), cell) == 0);
        assert(total_hits(players, pickups.drop_last()) == 0);
    }
}

proof fn lemma_player_counts(players: Seq<BoardPosition>, cell: BoardPosition, p: int)
    requires
        0 <= p < players.len(),
        players[p] == cell,
    ensures
        players_at(players, cell) >= 1,
    decreases players.len(),
{
    if p < players.len() - 1 {
        lemma_player_counts(players.drop_last(), cell, p);
    }
}

proof fn lemma_hits_add_up(players: Seq<BoardPosition>, pickups: Seq<Pickup>, k: int)
    requires
        0 <= k < pickups.len(),
    ensures
        total_hits(players, pickups) >= hits(players, pickups[k]),
    decreases pickups.len(),
{
    if k < pickups.len() - 1 {
        lemma_hits_add_up(players, pickups.drop_last(), k);
    }
}

} // verus!
