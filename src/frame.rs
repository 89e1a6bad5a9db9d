use vstd::prelude::*;

use crate::game::{Game, RUNNER_COLUMN};

verus! {

/// Number of rows shown above the ground row.
pub const JUMP_HEIGHT: i32 = 5;

/// Number of columns of the visible track.
pub const TRACK_WIDTH: i32 = 50;

/// What one cell of the playfield shows.
#[derive(Clone, Copy, Debug, PartialEq, Eq, Structural)]
pub enum Cell {
    Blank,
    Ground,
    Runner,
    Obstacle,
}

/// The row in which the runner is drawn: its height in whole cells, with the
/// half cell dropped toward the ground.
pub open spec fn runner_row(g: Game) -> int {
    let y = g.dino_y as int;
    if y >= 0 {
        y / 2
    } else {
        -((-y) / 2)
    }
}

/// The cell at `row` (0 is the ground, negative is up) and `col`: the runner at
/// its column and row, the obstacle on the ground at its column, the ground
/// elsewhere on the ground row, blank everywhere else.
pub open spec fn cell_of(g: Game, row: int, col: int) -> Cell {
    if col == RUNNER_COLUMN && row == runner_row(g) {
        Cell::Runner
    } else if row == 0 && col == g.cactus_x {
        Cell::Obstacle
    } else if row == 0 {
        Cell::Ground
    } else {
        Cell::Blank
    }
}

/// The text drawn for a cell.
pub open spec fn glyph_text(c: Cell) -> Seq<char> {
    match c {
        Cell::Blank => " "@,
        Cell::Ground => "⣿"@,
        Cell::Runner => "🦖"@,
        Cell::Obstacle => "🌵"@,
    }
}

/// The text of one decimal digit.
pub open spec fn digit_text(d: nat) -> Seq<char> {
    if d == 0 {
        "0"@
    } else if d == 1 {
        "1"@
    } else if d == 2 {
        "2"@
    } else if d == 3 {
        "3"@
    } else if d == 4 {
        "4"@
    } else if d == 5 {
        "5"@
    } else if d == 6 {
        "6"@
    } else if d == 7 {
        "7"@
    } else if d == 8 {
        "8"@
    } else {
        "9"@
    }
}

/// `n` written in decimal, without leading zeros.
pub open spec fn decimal(n: nat) -> Seq<char>
    decreases n,
{
    if n < 10 {
        digit_text(n)
    } else {
        decimal(n / 10) + digit_text(n % 10)
    }
}

/// The first `n` cells of a row, left to right.
pub open spec fn row_text(g: Game, row: int, n: nat) -> Seq<char>
    decreases n,
{
    if n == 0 {
        Seq::empty()
    } else {
        row_text(g, row, (n - 1) as nat) + glyph_text(cell_of(g, row, n - 1))
    }
}

/// The first `k` lines of the playfield, from the top row down, each ending
/// with a line break.
pub open spec fn rows_text(g: Game, k: nat) -> Seq<char>
    decreases k,
{
    if k == 0 {
        Seq::empty()
    } else {
        rows_text(g, (k - 1) as nat) + row_text(g, k - 1 - JUMP_HEIGHT, TRACK_WIDTH as nat)
            + "\n"@
    }
}

/// The score line and the blank line under it.
pub open spec fn header_text(g: Game) -> Seq<char> {
    "Score: "@ + decimal(g.score as nat) + "\n\n"@
}

/// The closing message of a finished game; nothing while the game goes on.
pub open spec fn footer_text(g: Game) -> Seq<char> {
    if g.game_over {
        "\nGame Over! Final score: "@ + decimal(g.score as nat) + "\n"@
    } else {
        Seq::empty()
    }
}

/// The whole frame: header, the playfield from the highest row down to the
/// ground row, and the footer.
pub open spec fn frame_text(g: Game) -> Seq<char> {
    header_text(g) + rows_text(g, (JUMP_HEIGHT + 1) as nat) + footer_text(g)
}

/// The text drawn for a cell.
pub fn glyph(c: Cell) -> (r: &'static str)
    ensures
        r@ == glyph_text(c),
{
    match c {
        Cell::Blank => " ",
        Cell::Ground => "⣿",
        Cell::Runner => "🦖",
        Cell::Obstacle => "🌵",
    }
}

fn digit(d: u32) -> (r: &'static str)
    requires
        d < 10,
    ensures
        r@ == digit_text(d as nat),
{
    if d == 0 {
        "0"
    } else if d == 1 {
        "1"
    } else if d == 2 {
        "2"
    } else if d == 3 {
        "3"
    } else if d == 4 {
        "4"
    } else if d == 5 {
        "5"
    } else if d == 6 {
        "6"
    } else if d == 7 {
        "7"
    } else if d == 8 {
        "8"
    } else {
        "9"
    }
}

/// Appends `n` in decimal to `s`.
fn append_decimal(s: &mut String, n: u32)
    ensures
        final(s)@ == old(s)@ + decimal(n as nat),
    decreases n,
{
    if n >= 10 {
        append_decimal(s, n / 10);
    }
    s.append(digit(n % 10));
    proof {
        if n >= 10 {
            assert(final(s)@ =~= old(s)@ + decimal(n as nat));
        }
    }
}

impl Game {
    /// What the cell at `row` and `col` shows.
    pub fn cell_at(&self, row: i32, col: i32) -> (c: Cell)
        ensures
            c == cell_of(*self, row as int, col as int),
    {
        let y = self.dino_y as i64;
        let runner: i64 = if y >= 0 {
            y / 2
        } else {
            -((-y) / 2)
        };
        if col == RUNNER_COLUMN && row as i64 == runner {
            Cell::Runner
        } else if row == 0 && col == self.cactus_x {
            Cell::Obstacle
        } else if row == 0 {
            Cell::Ground
        } else {
            Cell::Blank
        }
    }

    /// The text of one frame: the score, the playfield and, once the game is
    /// over, the closing message.
    pub fn render(&self) -> (r: String)
        ensures
            r@ == frame_text(*self),
    {
        let mut out = String::new();
        out.append("Score: ");
        append_decimal(&mut out, self.score);
        out.append("\n\n");
        let ghost head = out@;
        assert(head =~= header_text(*self));
        let mut k: i32 = 0;
        while k <= JUMP_HEIGHT
            invariant
                0 <= k <= JUMP_HEIGHT + 1,
                out@ == head + rows_text(*self, k as nat),
            decreases JUMP_HEIGHT + 1 - k,
        {
            let row = k - JUMP_HEIGHT;
            let ghost before = out@;
            let mut col: i32 = 0;
            while col < TRACK_WIDTH
                invariant
                    0 <= col <= TRACK_WIDTH,
                    row == k - JUMP_HEIGHT,
                    out@ == before + row_text(*self, row as int, col as nat),
                decreases TRACK_WIDTH - col,
            {
                out.append(glyph(self.cell_at(row, col)));
                col = col + 1;
                assert(out@ =~= before + row_text(*self, row as int, col as nat));
            }
            out.append("\n");
            k = k + 1;
            assert(out@ =~= head + rows_text(*self, k as nat));
        }
        if self.game_over {
            out.append("\nGame Over! Final score: ");
            append_decimal(&mut out, self.score);
            out.append("\n");
        }
        assert(out@ =~= frame_text(*self));
        out
    }
}

} // verus!
