use vstd::prelude::*;

use crate::settings::MAX_GAME_LEVEL;

verus! {

/// Lines to clear for each level step.
pub const LEVEL_THRESHOLD: u32 = 10;

/// Points for clearing `lines` rows at once, before the level multiplier.
pub open spec fn line_points(lines: u32) -> u32 {
    if lines == 1 {
        100
    } else if lines == 2 {
        300
    } else if lines == 3 {
        500
    } else if lines == 4 {
        800
    } else {
        0
    }
}

/// The level reached after clearing `lines` rows: one more per threshold, capped.
pub open spec fn level_for(lines: u32) -> u32 {
    let level = lines / LEVEL_THRESHOLD + 1;
    if level < MAX_GAME_LEVEL {
        level as u32
    } else {
        MAX_GAME_LEVEL
    }
}

/// `score + points`, held at `u32::MAX`.
pub open spec fn capped_add(score: u32, points: int) -> u32 {
    if score + points > u32::MAX {
        u32::MAX
    } else {
        (score + points) as u32
    }
}

/// `stats` after `lines` rows are cleared at once: the points at the level
/// reached so far are added, then the rows are counted.
pub open spec fn scored_lines(stats: GameStats, lines: u32) -> GameStats {
    GameStats {
        score: stats.score.saturating_add((line_points(lines) * level_for(stats.lines)) as u32),
        lines: stats.lines.saturating_add(lines),
    }
}

/// Score and cleared-line count of one game. Both only grow; at `u32::MAX`
/// they stay there.
pub struct GameStats {
    pub score: u32,
    pub lines: u32,
}

impl GameStats {
    pub fn new() -> (r: GameStats)
        ensures
            r.score == 0,
            r.lines == 0,
    {
        GameStats { score: 0, lines: 0 }
    }

    /// One point for a manual step down.
    pub fn score_soft_drop(&mut self)
        ensures
            final(self).score == old(self).score.saturating_add(1),
            final(self).lines == old(self).lines,
    {
        self.score = self.score.saturating_add(1);
    }

    /// Two points per row of a hard drop.
    pub fn score_hard_drop(&mut self, rows_dropped: u32)
        ensures
            final(self).score == capped_add(old(self).score, 2 * rows_dropped),
            final(self).lines == old(self).lines,
    {
        let points: u32 = if rows_dropped > u32::MAX / 2 {
            u32::MAX
        } else {
            2 * rows_dropped
        };
        self.score = self.score.saturating_add(points);
    }

    /// Points for `lines` rows cleared at once, times the level reached before
    /// they are counted; then the rows are added to the total.
    pub fn score_completed_lines(&mut self, lines: u32)
        ensures
            *final(self) == scored_lines(*old(self), lines),
    {
        let points: u32 = match lines {
            1 => 100,
            2 => 300,
            3 => 500,
            4 => 800,
            _ => 0,
        };
        let level = self.get_level();
        self.score = self.score.saturating_add(points * level);
        self.lines = self.lines.saturating_add(lines);
    }

    pub fn get_score(&self) -> (r: u32)
        ensures
            r == self.score,
    {
        self.score
    }

    pub fn get_lines(&self) -> (r: u32)
        ensures
            r == self.lines,
    {
        self.lines
    }

    pub fn get_level(&self) -> (r: u32)
        ensures
            r == level_for(self.lines),
            1 <= r <= MAX_GAME_LEVEL,
    {
        let level = (self.lines / LEVEL_THRESHOLD) + 1;
        if level < MAX_GAME_LEVEL {
            level
        } else {
            MAX_GAME_LEVEL
        }
    }
}

} // verus!
