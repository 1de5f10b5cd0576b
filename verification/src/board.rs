//! The board: its size, its cells and the per-board tile cache.

use vstd::prelude::*;

verus! {

/// Reference to an entity owned by the engine: a slot index and the
/// generation of that slot.
#[derive(Clone, Copy, Debug, PartialEq, Eq, Structural)]
pub struct EntityRef {
    pub index: u32,
    pub generation: u32,
}

/// An elevation, held as the bit pattern of an IEEE-754 single-precision
/// number. The all-zero pattern is the elevation zero.
#[derive(Clone, Copy, Debug, PartialEq, Eq, Structural)]
pub struct Elevation {
    pub bits: u32,
}

impl Elevation {
    /// The elevation zero.
    pub open spec fn spec_zero() -> Elevation {
        Elevation { bits: 0 }
    }

    /// The elevation zero.
    #[verifier::when_used_as_spec(spec_zero)]
    pub fn zero() -> (e: Elevation)
        ensures
            e == Elevation::spec_zero(),
    {
        Elevation { bits: 0 }
    }
}

/// The position of an entity on its board.
#[derive(Clone, Copy, Debug, PartialEq, Eq, Structural)]
pub struct BoardPosition {
    pub x: usize,
    pub y: usize,
}

/// The authoritative board size.
#[derive(Clone, Copy, Debug, PartialEq, Eq, Structural)]
pub struct Board {
    pub width: usize,
    pub height: usize,
}

impl Board {
    /// Whether `p` names a cell of this board.
    pub open spec fn contains(&self, p: BoardPosition) -> bool {
        p.x < self.width && p.y < self.height
    }

    /// The cells of this board in row order: cell `(x, y)` stands at index
    /// `y * width + x`, where a cache keeps its tile.
    pub fn cells(&self) -> (cells: Vec<BoardPosition>)
        requires
            self.width * self.height <= usize::MAX,
        ensures
            cells@.len() == self.width * self.height,
            forall|i: int|
                0 <= i < cells@.len() ==> #[trigger] cells@[i] == (BoardPosition {
                    x: (i % self.width as int) as usize,
                    y: (i / self.width as int) as usize,
                }),
    {
        let mut cells: Vec<BoardPosition> = Vec::new();
        let mut y: usize = 0;
        while y < self.height
            invariant
                y <= self.height,
                cells@.len() == y * self.width,
                forall|i: int|
                    0 <= i < cells@.len() ==> #[trigger] cells@[i] == (BoardPosition {
                        x: (i % self.width as int) as usize,
                        y: (i / self.width as int) as usize,
                    }),
            decreases self.height - y,
        {
            let mut x: usize = 0;
            while x < self.width
                invariant
                    y < self.height,
                    x <= self.width,
                    cells@.len() == y * self.width + x,
                    forall|i: int|
                        0 <= i < cells@.len() ==> #[trigger] cells@[i] == (BoardPosition {
                            x: (i % self.width as int) as usize,
                            y: (i / self.width as int) as usize,
                        }),
                decreases self.width - x,
            {
                proof {
                    vstd::arithmetic::div_mod::lemma_fundamental_div_mod_converse(
                        y * self.width + x,
                        self.width as int,
                        y as int,
                        x as int,
                    );
                }
                cells.push(BoardPosition { x, y });
                x += 1;
            }
            proof {
                assert(y * self.width + self.width == (y + 1) * self.width) by (nonlinear_arith);
            }
            y += 1;
        }
        proof {
            assert(y * self.width == self.width * self.height) by (nonlinear_arith)
                requires
                    y == self.height,
            ;
        }
        cells
    }

    /// The cell on which the player starts: the middle of the board.
    pub fn player_start(&self) -> (p: BoardPosition)
        ensures
            p.x == self.width / 2,
            p.y == self.height / 2,
    {
        BoardPosition { x: self.width / 2, y: self.height / 2 }
    }
}

/// Board tile component: the elevation of one cell.
#[derive(Clone, Copy, Debug, PartialEq, Eq, Structural)]
pub struct Cell {
    pub height: Elevation,
}

/// One cell of the cache: its occupant and its elevation.
#[derive(Clone, Copy, Debug, PartialEq, Eq, Structural)]
pub struct Tile {
    pub entity: EntityRef,
    pub height: Elevation,
}

/// Tiles of one board in row order: the tile of cell `(x, y)` is at index
/// `y * width + x`.
pub struct BoardCache {
    width: usize,
    height: usize,
    inner: Vec<Tile>,
}

impl BoardCache {
    /// Number of columns.
    pub closed spec fn width(&self) -> nat {
        self.width as nat
    }

    /// Number of rows.
    pub closed spec fn height(&self) -> nat {
        self.height as nat
    }

    /// The tiles, in row order.
    pub closed spec fn tiles(&self) -> Seq<Tile> {
        self.inner@
    }

    /// The cache holds exactly one tile per cell.
    pub open spec fn wf(&self) -> bool {
        self.tiles().len() == self.width() * self.height()
    }

    /// Index of cell `(x, y)` in the tile sequence.
    pub open spec fn index_of(&self, x: int, y: int) -> int {
        y * self.width() + x
    }

    /// The tile found for `(x, y)`, if its index lies inside the sequence.
    pub open spec fn tile_at(&self, x: int, y: int) -> Option<Tile> {
        if 0 <= self.index_of(x, y) < self.tiles().len() {
            Some(self.tiles()[self.index_of(x, y)])
        } else {
            None
        }
    }

    /// The elevation found for `(x, y)`: that of its tile, or zero where
    /// there is no tile.
    pub open spec fn height_at(&self, x: int, y: int) -> Elevation {
        match self.tile_at(x, y) {
            Some(tile) => tile.height,
            None => Elevation::spec_zero(),
        }
    }

    /// A cache of the given size over the given tiles. It is well formed
    /// exactly when there is one tile per cell.
    pub fn new(width: usize, height: usize, tiles: Vec<Tile>) -> (cache: BoardCache)
        ensures
            cache.width() == width,
            cache.height() == height,
            cache.tiles() == tiles@,
            cache.wf() <==> tiles@.len() == width * height,
    {
        BoardCache { width, height, inner: tiles }
    }

    /// The tile of cell `(x, y)`, or `None` where `y * width + x` is not an
    /// index of the tile sequence.
    pub fn get(&self, x: usize, y: usize) -> (found: Option<&Tile>)
        ensures
            match found {
                Some(tile) => self.tile_at(x as int, y as int) == Some(*tile),
                None => self.tile_at(x as int, y as int) is None,
            },
    {
        let len = self.inner.len();
        proof {
            assert(self.index_of(x as int, y as int) == y * self.width + x);
        }
        match y.checked_mul(self.width) {
            Some(row) => match row.checked_add(x) {
                Some(index) => if index < len {
                    Some(&self.inner[index])
                } else {
                    None
                },
                None => None,
            },
            None => None,
        }
    }

    /// The board size as `(width, height)`.
    pub fn size(&self) -> (dims: (usize, usize))
        ensures
            dims.0 == self.width(),
            dims.1 == self.height(),
    {
        (self.width, self.height)
    }

    /// The elevation of cell `(x, y)`, or zero where `get` finds no tile.
    pub fn get_height(&self, x: usize, y: usize) -> (h: Elevation)
        ensures
            h == self.height_at(x as int, y as int),
    {
        match self.get(x, y) {
            Some(tile) => tile.height,
            None => Elevation::zero(),
        }
    }
}

/// On a well-formed cache a lookup finds a tile exactly for the cells of the
/// board, for every query whose column lies on the board and for every query
/// whose index lies past the last tile.
pub proof fn lemma_get_some_iff_on_board(cache: &BoardCache, x: int, y: int)
    requires
        cache.wf(),
        0 <= x,
        0 <= y,
        x < cache.width() || cache.index_of(x, y) >= cache.width() * cache.height(),
    ensures
        cache.tile_at(x, y) is Some <==> (x < cache.width() && y < cache.height()),
        cache.tile_at(x, y) is None ==> cache.height_at(x, y) == Elevation::spec_zero(),
        cache.tile_at(x, y) is Some ==> cache.height_at(x, y) == cache.tiles()[cache.index_of(x, y)].height,
{
    let w = cache.width() as int;
    let h = cache.height() as int;
    if x < w {
        if y < h {
            assert(y * w + x < w * h) by (nonlinear_arith)
                requires
                    0 <= x < w,
                    0 <= y < h,
            ;
            assert(0 <= y * w) by (nonlinear_arith)
                requires
                    0 <= y,
                    0 <= w,
            ;
        } else {
            assert(y * w + x >= w * h) by (nonlinear_arith)
                requires
                    0 <= x,
                    0 <= w,
                    y >= h,
            ;
        }
    }
}

/// A cache keeps the tile of the cell that `Board::cells` lists at index `i`
/// at that same index: looking the cell up finds tile `i`.
pub proof fn lemma_cell_order_matches_cache(cache: &BoardCache, i: int)
    requires
        cache.width() > 0,
        0 <= i < cache.tiles().len(),
    ensures
        cache.tile_at(i % (cache.width() as int), i / (cache.width() as int)) == Some(
            cache.tiles()[i],
        ),
{
    let w = cache.width() as int;
    vstd::arithmetic::div_mod::lemma_fundamental_div_mod(i, w);
    assert((i / w) * w == w * (i / w)) by (nonlinear_arith);
}

} // verus!
