//! The wheel of fortune: drawing a winner among the contestants, resetting
//! the draw, and whether a draw has been made.
use vstd::prelude::*;

use rand::seq::SliceRandom;

use crate::status;

verus! {

/// Whether a winner has been drawn.
pub struct GameStatus {
    pub status: bool,
}

/// A user id, as the draw result is answered.
pub struct QueryId {
    pub id: u128,
}

/// One write to the game tables.
#[derive(Clone, Copy, Debug, PartialEq, Eq, Structural)]
pub enum GameWrite {
    /// Sets the winner flag of the contestant `id` in `game`.
    MarkWinner { id: u128, winner: bool },
    /// Inserts `id` into `winner`, so that contestants can check whether they won.
    RecordWinner { id: u128 },
}

/// Whether a winner has been drawn: exactly when `winner` holds a row.
pub fn draw_status(winner_count: i64) -> (r: (u16, GameStatus))
    ensures
        r.0 == status::OK,
        r.1.status == (winner_count != 0),
{
    let response = if winner_count == 0 {
        GameStatus { status: false }
    } else {
        GameStatus { status: true }
    };
    (status::OK, response)
}

/// The drawn winner: the first row of `winner`.
pub fn draw_result(winner_ids: &Vec<u128>) -> (r: (u16, QueryId))
    requires
        winner_ids.len() > 0,
    ensures
        r.0 == status::OK,
        r.1.id == winner_ids@[0],
{
    (status::OK, QueryId { id: winner_ids[0] })
}

/// Picks one contestant at random with the `rand` crate
/// (`choose_multiple(&mut thread_rng(), 1)` on the slice).
/// Trusted: the crate picks `min(1, len)` elements of the slice, so the result
/// is one of the contestants when there is any, and `None` otherwise. Which
/// one is left open: it rests on chance.
#[verifier::external_body]
fn choose_one(contestants: &Vec<u128>) -> (r: Option<u128>)
    ensures
        r is Some <==> contestants.len() > 0,
        r matches Some(w) ==> contestants@.contains(w),
{
    contestants.as_slice().choose_multiple(&mut rand::thread_rng(), 1).next().copied()
}

/// The writes that make `w` the winner: its flag is set, then it is recorded.
pub open spec fn winner_writes_spec(w: u128) -> Seq<GameWrite> {
    seq![GameWrite::MarkWinner { id: w, winner: true }, GameWrite::RecordWinner { id: w }]
}

/// The writes that make `w` the winner.
pub fn winner_writes(w: u128) -> (ws: Vec<GameWrite>)
    ensures
        ws@ == winner_writes_spec(w),
{
    let mut ws: Vec<GameWrite> = Vec::new();
    ws.push(GameWrite::MarkWinner { id: w, winner: true });
    ws.push(GameWrite::RecordWinner { id: w });
    assert(ws@ =~= winner_writes_spec(w));
    ws
}

/// Draws a winner among the contestants (the rows of `game`) at random.
pub fn draw_winner(contestants: &Vec<u128>) -> (r: (u16, Vec<GameWrite>))
    requires
        contestants.len() > 0,
    ensures
        r.0 == status::OK,
        (exists|w: u128| contestants@.contains(w) && r.1@ == #[trigger] winner_writes_spec(w)),
{
    let w = match choose_one(contestants) {
        Some(w) => w,
        None => {
            assert(false);
            0
        },
    };
    let ws = winner_writes(w);
    (status::OK, ws)
}

/// The writes that clear the winner flag of each of `contestants`, in order.
pub open spec fn reset_writes_spec(contestants: Seq<u128>) -> Seq<GameWrite> {
    contestants.map_values(|id: u128| GameWrite::MarkWinner { id, winner: false })
}

/// The writes that clear the winner flag of every contestant, in row order
/// (after the `winner` table has been emptied).
pub fn reset_winner(contestants: &Vec<u128>) -> (r: (u16, Vec<GameWrite>))
    ensures
        r.0 == status::OK,
        r.1@ == reset_writes_spec(contestants@),
{
    let mut ws: Vec<GameWrite> = Vec::new();
    let mut i: usize = 0;
    while i < contestants.len()
        invariant
            0 <= i <= contestants.len(),
            ws.len() == i,
            forall|j: int|
                0 <= j < i ==> #[trigger] ws@[j] == (GameWrite::MarkWinner {
                    id: contestants@[j],
                    winner: false,
                }),
        decreases contestants.len() - i,
    {
        ws.push(GameWrite::MarkWinner { id: contestants[i], winner: false });
        i = i + 1;
    }
    assert(ws@ =~= reset_writes_spec(contestants@));
    (status::OK, ws)
}

/// The game tables as the writes see them: the winner flag of each
/// contestant in `game`, and the ids in `winner`.
pub struct GameTables {
    pub flags: Map<u128, bool>,
    pub winners: Set<u128>,
}

/// The tables after one write: a flag is set (an update of `game` writes the
/// row whether or not it was there), or an id is added to `winner`.
pub open spec fn apply_game_write(t: GameTables, w: GameWrite) -> GameTables {
    match w {
        GameWrite::MarkWinner { id, winner } => GameTables { flags: t.flags.insert(id, winner), ..t },
        GameWrite::RecordWinner { id } => GameTables { winners: t.winners.insert(id), ..t },
    }
}

/// The tables after a list of writes, applied in order.
pub open spec fn apply_game_writes(t: GameTables, ws: Seq<GameWrite>) -> GameTables
    decreases ws.len(),
{
    if ws.len() == 0 {
        t
    } else {
        apply_game_writes(apply_game_write(t, ws[0]), ws.drop_first())
    }
}

/// After a draw's writes, the drawn contestant is flagged as the winner and
/// recorded in `winner`, so that the draw status reports a winner.
pub proof fn lemma_draw_records_winner(t: GameTables, w: u128)
    requires
        t.winners.finite(),
    ensures
        ({
            let after = apply_game_writes(t, winner_writes_spec(w));
            &&& after.flags.contains_key(w) && after.flags[w]
            &&& after.winners.contains(w)
            &&& after.winners.finite() && after.winners.len() != 0
        }),
{
    let ws = winner_writes_spec(w);
    let t1 = apply_game_write(t, ws[0]);
    let t2 = apply_game_write(t1, ws[1]);
    assert(ws.drop_first().drop_first() =~= Seq::<GameWrite>::empty());
    assert(apply_game_writes(t1, ws.drop_first()) == apply_game_writes(t2, ws.drop_first().drop_first()));
    assert(t2.winners.contains(w));
}

/// The flags that the reset writes of `cs` leave, starting from `flags`.
pub open spec fn reset_flags_spec(flags: Map<u128, bool>, cs: Seq<u128>) -> Map<u128, bool>
    decreases cs.len(),
{
    if cs.len() == 0 {
        flags
    } else {
        reset_flags_spec(flags.insert(cs[0], false), cs.drop_first())
    }
}

proof fn lemma_reset_writes_effect(t: GameTables, cs: Seq<u128>)
    ensures
        apply_game_writes(t, reset_writes_spec(cs)) == (GameTables {
            flags: reset_flags_spec(t.flags, cs),
            winners: t.winners,
        }),
    decreases cs.len(),
{
    if cs.len() > 0 {
        let t1 = apply_game_write(t, GameWrite::MarkWinner { id: cs[0], winner: false });
        assert(reset_writes_spec(cs)[0] == GameWrite::MarkWinner { id: cs[0], winner: false });
        assert(reset_writes_spec(cs).drop_first() =~= reset_writes_spec(cs.drop_first()));
        lemma_reset_writes_effect(t1, cs.drop_first());
    }
}

proof fn lemma_reset_flags_cleared(flags: Map<u128, bool>, cs: Seq<u128>, c: u128)
    requires
        cs.contains(c),
    ensures
        reset_flags_spec(flags, cs).contains_key(c),
        !reset_flags_spec(flags, cs)[c],
    decreases cs.len(),
{
    if cs.drop_first().contains(c) {
        lemma_reset_flags_cleared(flags.insert(cs[0], false), cs.drop_first(), c);
    } else {
        assert(c == cs[0]) by {
            let k = choose|k: int| 0 <= k < cs.len() && cs[k] == c;
            if k > 0 {
                assert(cs.drop_first()[k - 1] == c);
            }
        }
        lemma_reset_flags_kept(flags.insert(cs[0], false), cs.drop_first(), c);
    }
}

proof fn lemma_reset_flags_kept(flags: Map<u128, bool>, cs: Seq<u128>, c: u128)
    requires
        !cs.contains(c),
        flags.contains_key(c),
    ensures
        reset_flags_spec(flags, cs).contains_key(c),
        reset_flags_spec(flags, cs)[c] == flags[c],
    decreases cs.len(),
{
    if cs.len() > 0 {
        assert(cs[0] != c);
        assert(!cs.drop_first().contains(c)) by {
            if cs.drop_first().contains(c) {
                let k = choose|k: int| 0 <= k < cs.drop_first().len() && cs.drop_first()[k] == c;
                assert(cs[k + 1] == c);
            }
        }
        lemma_reset_flags_kept(flags.insert(cs[0], false), cs.drop_first(), c);
    }
}

/// The tables after a reset: `winner` emptied, then the reset's writes for
/// `contestants` applied.
pub open spec fn after_reset(t: GameTables, contestants: Seq<u128>) -> GameTables {
    apply_game_writes(GameTables { flags: t.flags, winners: Set::empty() }, reset_writes_spec(contestants))
}

/// A reset undoes any draw: once `winner` has been emptied and the reset's
/// writes applied, no winner is recorded, so the draw status reports no
/// winner, and the contestant `c` is not flagged as the winner.
pub proof fn lemma_reset_undoes_draw(t: GameTables, contestants: Seq<u128>, c: u128)
    requires
        contestants.contains(c),
    ensures
        after_reset(t, contestants).winners.finite(),
        after_reset(t, contestants).winners.len() == 0,
        after_reset(t, contestants).flags.contains_key(c),
        !after_reset(t, contestants).flags[c],
{
    let start = GameTables { flags: t.flags, winners: Set::empty() };
    lemma_reset_writes_effect(start, contestants);
    assert(after_reset(t, contestants).winners == Set::<u128>::empty());
    lemma_reset_flags_cleared(t.flags, contestants, c);
}

} // verus!
