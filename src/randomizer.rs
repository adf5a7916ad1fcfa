use vstd::prelude::*;

use rand::seq::SliceRandom;

use crate::tetromino::{Piece, Tetromino};

verus! {

/// How many recent shapes the randomizer remembers.
pub const HISTORY_SIZE: usize = 4;

/// How many draws the randomizer makes at most for one piece.
pub const MAX_DRAWS: usize = 6;

/// The history after `shape` is recorded: appended at the back, and the
/// oldest entry dropped when that makes it longer than `HISTORY_SIZE`.
pub open spec fn recorded(history: Seq<Tetromino>, shape: Tetromino) -> Seq<Tetromino> {
    let h = history.push(shape);
    if h.len() > HISTORY_SIZE {
        h.drop_first()
    } else {
        h
    }
}

/// The shape that the retry rule keeps out of a run of draws: the first
/// draw not found in `history`, or the last draw when every earlier one is.
pub open spec fn kept_draw(history: Seq<Tetromino>, draws: Seq<Tetromino>) -> Tetromino
    decreases draws.len(),
{
    if draws.len() <= 1 || !history.contains(draws[0]) {
        draws[0]
    } else {
        kept_draw(history, draws.drop_first())
    }
}

/// Relies on rand's `SliceRandom::choose` with the thread-local generator:
/// `None` for an empty slice, otherwise one of the slice's elements.
#[verifier::external_body]
fn choose_shape(shapes: &[Tetromino]) -> (r: Option<Tetromino>)
    ensures
        shapes@.len() == 0 ==> r is None,
        shapes@.len() > 0 ==> r is Some && shapes@.contains(r->0),
{
    shapes.choose(&mut rand::thread_rng()).copied()
}

/// Picks the shape of each new piece, steering away from recent shapes.
pub struct Randomizer {
    pub history: Vec<Tetromino>,
}

impl Randomizer {
    pub open spec fn wf(&self) -> bool {
        self.history@.len() <= HISTORY_SIZE
    }

    /// A randomizer whose history holds Z, S, Z, S, so that the first draws
    /// lean away from those two shapes.
    pub fn new() -> (r: Randomizer)
        ensures
            r.wf(),
            r.history@ == seq![Tetromino::Z, Tetromino::S, Tetromino::Z, Tetromino::S],
    {
        let mut rand = Randomizer { history: Vec::new() };
        rand.add_to_history(Tetromino::Z);
        rand.add_to_history(Tetromino::S);
        rand.add_to_history(Tetromino::Z);
        rand.add_to_history(Tetromino::S);
        proof {
            assert(rand.history@ =~= seq![Tetromino::Z, Tetromino::S, Tetromino::Z, Tetromino::S]);
        }
        rand
    }

    /// A fresh piece of a randomly drawn shape: `MAX_DRAWS` shapes are drawn
    /// and `pick_shape` keeps one of them. The shape is then recorded in the
    /// history.
    pub fn create_piece(&mut self) -> (r: Piece)
        requires
            old(self).wf(),
        ensures
            final(self).wf(),
            r == Piece::spawned(r.ptype),
            final(self).history@ == recorded(old(self).history@, r.ptype),
    {
        let all_tetrominos = [
            Tetromino::I,
            Tetromino::J,
            Tetromino::L,
            Tetromino::O,
            Tetromino::S,
            Tetromino::T,
            Tetromino::Z,
        ];
        let mut draws = [Tetromino::I; MAX_DRAWS];
        let mut i: usize = 0;
        while i < MAX_DRAWS
            invariant
                i <= MAX_DRAWS,
                all_tetrominos@.len() == 7,
            decreases MAX_DRAWS - i,
        {
            draws[i] = choose_shape(&all_tetrominos).unwrap();
            i = i + 1;
        }
        let ptype = self.pick_shape(&draws);
        self.add_to_history(ptype);
        Piece::create(ptype)
    }

    /// The retry rule on a run of draws: the first draw that is not among the
    /// recent shapes, or the last draw when all of them are.
    pub fn pick_shape(&self, draws: &[Tetromino; MAX_DRAWS]) -> (r: Tetromino)
        ensures
            r == kept_draw(self.history@, draws@),
    {
        let mut i: usize = 0;
        proof {
            assert(draws@.subrange(0, MAX_DRAWS as int) =~= draws@);
        }
        while i + 1 < MAX_DRAWS && self.in_history(draws[i])
            invariant
                i < MAX_DRAWS,
                kept_draw(self.history@, draws@) == kept_draw(
                    self.history@,
                    draws@.subrange(i as int, MAX_DRAWS as int),
                ),
            decreases MAX_DRAWS - i,
        {
            proof {
                let rest = draws@.subrange(i as int, MAX_DRAWS as int);
                assert(rest[0] == draws@[i as int]);
                assert(rest.drop_first() =~= draws@.subrange(i + 1, MAX_DRAWS as int));
            }
            i = i + 1;
        }
        proof {
            let rest = draws@.subrange(i as int, MAX_DRAWS as int);
            assert(rest[0] == draws@[i as int]);
        }
        draws[i]
    }

    /// Whether `ptype` is among the recent shapes.
    fn in_history(&self, ptype: Tetromino) -> (r: bool)
        ensures
            r == self.history@.contains(ptype),
    {
        let mut i: usize = 0;
        while i < self.history.len()
            invariant
                i <= self.history@.len(),
                forall|k: int| 0 <= k < i ==> #[trigger] self.history@[k] != ptype,
            decreases self.history@.len() - i,
        {
            if self.history[i] == ptype {
                return true;
            }
            i = i + 1;
        }
        false
    }

    /// Appends `ptype` to the history, dropping the oldest entry beyond
    /// `HISTORY_SIZE` entries.
    pub fn add_to_history(&mut self, ptype: Tetromino)
        requires
            old(self).wf(),
        ensures
            final(self).wf(),
            final(self).history@ == recorded(old(self).history@, ptype),
    {
        self.history.push(ptype);
        if self.history.len() > HISTORY_SIZE {
            self.history.remove(0);
        }
        proof {
            assert(self.history@ =~= recorded(old(self).history@, ptype));
        }
    }
}

} // verus!
