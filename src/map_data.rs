use rand::os::OsRng;
use rand::Rng;
use vstd::prelude::*;

verus! {

/// One cell of the map: empty, or a tile at a depth.
#[derive(Clone, Copy, Debug, PartialEq, Eq, Hash, Structural)]
pub enum Hex {
    Blank,
    Tile(i32),
}

/// Rust's `/` on integers: the quotient rounded toward zero.
pub open spec fn div_toward_zero(x: int, d: int) -> int {
    if x >= 0 {
        x / d
    } else {
        -((-x) / d)
    }
}

/// Position in the row-major cell list of the cell at axial `(q, r)`, on a
/// map whose rows hold `row_size` cells: row `r + q / 2` (rounded toward
/// zero), column `q`.
pub open spec fn axial_index(q: int, r: int, row_size: int) -> int {
    (r + div_toward_zero(q, 2)) * row_size + q
}

/// `cells[i]` where `i` is a position of `cells`, and nothing otherwise.
pub open spec fn cell_at(cells: Seq<Hex>, i: int) -> Option<Hex> {
    if 0 <= i < cells.len() {
        Some(cells[i])
    } else {
        None
    }
}

/// What a lookup handed back, with the reference read through.
pub open spec fn found(r: Option<&Hex>) -> Option<Hex> {
    match r {
        Some(h) => Some(*h),
        None => None,
    }
}

/// Depths of the generated tiles lie in `TILE_DEPTH_LOW..TILE_DEPTH_HIGH`.
pub const TILE_DEPTH_LOW: i32 = -6;

/// One past the deepest generated tile depth.
pub const TILE_DEPTH_HIGH: i32 = 3;

/// A rectangular map stored row by row, `row_size` cells to a row.
#[derive(Clone, Debug)]
pub struct MapData {
    row_size: usize,
    data: Vec<Hex>,
}

/// Walks the cells of a map in storage order, with their column and row.
pub struct MapDataIter<'a> {
    i: usize,
    data: &'a Vec<Hex>,
    row_size: usize,
}

/// Why a map could not be generated.
#[derive(Clone, Copy, Debug, PartialEq, Eq, Structural)]
pub enum MapError {
    /// The operating system's random source could not be opened.
    RandomSourceUnavailable,
}

impl MapData {
    /// The number of cells in a row.
    pub closed spec fn spec_row_size(&self) -> nat {
        self.row_size as nat
    }

    /// The cells, row after row.
    pub closed spec fn cells(&self) -> Seq<Hex> {
        self.data@
    }

    pub fn new(row_size: usize, data: Vec<Hex>) -> (m: Self)
        ensures
            m.spec_row_size() == row_size,
            m.cells() == data@,
    {
        MapData { row_size, data }
    }

    pub fn data(&self) -> (r: &Vec<Hex>)
        ensures
            r@ == self.cells(),
    {
        &self.data
    }

    pub fn row_size(&self) -> (r: usize)
        ensures
            r == self.spec_row_size(),
    {
        self.row_size
    }

    /// The number of rows: whole rows only.
    pub fn rows(&self) -> (r: usize)
        requires
            self.spec_row_size() > 0,
        ensures
            r == self.cells().len() / self.spec_row_size(),
    {
        self.data.len() / self.row_size
    }

    /// The number of columns, which is the row size.
    pub fn cols(&self) -> (r: usize)
        ensures
            r == self.spec_row_size(),
    {
        self.row_size
    }

    /// The cell at cube coordinates `(x, _, z)`, which is the cell at axial
    /// `(x, z)`.
    pub fn get_cube(&self, x: i32, y: i32, z: i32) -> (r: Option<&Hex>)
        ensures
            found(r) == cell_at(
                self.cells(),
                axial_index(x as int, z as int, self.spec_row_size() as int),
            ),
    {
        self.get_axial(x, z)
    }

    /// The cell at axial `(q, r)`, if the map holds it.
    pub fn get_axial(&self, q: i32, r: i32) -> (h: Option<&Hex>)
        ensures
            found(h) == cell_at(
                self.cells(),
                axial_index(q as int, r as int, self.spec_row_size() as int),
            ),
    {
        let row: i128 = r as i128 + (q / 2) as i128;
        let size: i128 = self.row_size as i128;
        assert(-0x1_0000_0000 <= row <= 0x1_0000_0000);
        assert(0 <= size <= 0x1_0000_0000_0000_0000);
        assert(-0x1_0000_0000_0000_0000_0000_0000 <= row * size <= 0x1_0000_0000_0000_0000_0000_0000)
            by (nonlinear_arith)
            requires
                -0x1_0000_0000 <= row <= 0x1_0000_0000,
                0 <= size <= 0x1_0000_0000_0000_0000,
        ;
        let idx: i128 = row * size + q as i128;
        if 0 <= idx && idx < self.data.len() as i128 {
            Some(&self.data[idx as usize])
        } else {
            None
        }
    }

    /// The cell in column `x` of row `y`, if the map holds it.
    pub fn get_rect(&self, x: usize, y: usize) -> (h: Option<&Hex>)
        ensures
            found(h) == cell_at(self.cells(), y * self.spec_row_size() + x),
    {
        let row: u128 = y as u128;
        let size: u128 = self.row_size as u128;
        assert(row * size <= 0xFFFF_FFFF_FFFF_FFFE_0000_0000_0000_0001) by (nonlinear_arith)
            requires
                row <= 0xFFFF_FFFF_FFFF_FFFF,
                size <= 0xFFFF_FFFF_FFFF_FFFF,
        ;
        let idx: u128 = row * size + x as u128;
        if idx < self.data.len() as u128 {
            Some(&self.data[idx as usize])
        } else {
            None
        }
    }

    /// Walks the cells from the first.
    pub fn iter(&self) -> (it: MapDataIter)
        ensures
            it.position() == 0,
            it.cells() == self.cells(),
            it.spec_row_size() == self.spec_row_size(),
    {
        MapDataIter { i: 0, data: &self.data, row_size: self.row_size }
    }
}

impl<'a> MapDataIter<'a> {
    /// How many cells have been handed out.
    pub closed spec fn position(&self) -> nat {
        self.i as nat
    }

    pub closed spec fn cells(&self) -> Seq<Hex> {
        self.data@
    }

    pub closed spec fn spec_row_size(&self) -> nat {
        self.row_size as nat
    }

    /// The next cell with its column and row, or `None` past the last cell.
    pub fn next(&mut self) -> (r: Option<(&'a Hex, usize, usize)>)
        requires
            old(self).spec_row_size() > 0,
        ensures
            final(self).cells() == old(self).cells(),
            final(self).spec_row_size() == old(self).spec_row_size(),
            ({
                let i = old(self).position();
                let n = old(self).spec_row_size();
                if i < old(self).cells().len() {
                    &&& r matches Some((h, x, y)) && *h == old(self).cells()[i as int] && x == i
                        % n && y == i / n
                    &&& final(self).position() == i + 1
                } else {
                    r is None && final(self).position() == i
                }
            }),
    {
        let data: &'a Vec<Hex> = self.data;
        if self.i < data.len() {
            let hex: &'a Hex = &data[self.i];
            let y: usize = self.i / self.row_size;
            let x: usize = self.i % self.row_size;
            self.i = self.i + 1;
            Some((hex, x, y))
        } else {
            None
        }
    }
}

#[verifier::external_type_specification]
#[verifier::external_body]
pub struct ExOsRng(OsRng);

/// Relies on rand's `OsRng::new`: opens the operating system's random
/// source, or fails with an I/O error (dropped here).
#[verifier::external_body]
fn open_os_rng() -> (r: Option<OsRng>) {
    OsRng::new().ok()
}

/// Relies on rand's `Rng::gen::<bool>` on `OsRng`: a coin flip, so nothing
/// is promised of its value. rand panics if the operating system's random
/// source fails while reading, which no argument can rule out.
#[verifier::external_body]
fn draw_bool(rng: &mut OsRng) -> (r: bool) {
    rng.gen::<bool>()
}

/// Relies on rand's `Rng::gen_range(low, high)` on `OsRng`: a value in
/// `low..high`; it panics unless `low < high`.
#[verifier::external_body]
fn draw_range(rng: &mut OsRng, low: i32, high: i32) -> (r: i32)
    requires
        low < high,
    ensures
        low <= r < high,
{
    rng.gen_range(low, high)
}

/// A cell that random generation may produce: blank, or a tile whose depth
/// lies in `TILE_DEPTH_LOW..TILE_DEPTH_HIGH`.
pub open spec fn generated_hex(h: Hex) -> bool {
    match h {
        Hex::Blank => true,
        Hex::Tile(d) => TILE_DEPTH_LOW <= d < TILE_DEPTH_HIGH,
    }
}

/// A square map of `side_len` by `side_len` random cells: each is blank or a
/// tile, as a coin falls, and a tile gets a random depth. Fails only when the
/// random source cannot be opened.
pub fn simulated_map_data(side_len: usize) -> (r: Result<MapData, MapError>)
    requires
        side_len * side_len <= usize::MAX,
    ensures
        r matches Ok(m) ==> {
            &&& m.spec_row_size() == side_len
            &&& m.cells().len() == side_len * side_len
            &&& forall|i: int| 0 <= i < m.cells().len() ==> generated_hex(#[trigger] m.cells()[i])
        },
{
    let area: usize = side_len * side_len;
    let mut data: Vec<Hex> = Vec::with_capacity(area);
    let mut rng = match open_os_rng() {
        Some(rng) => rng,
        None => return Err(MapError::RandomSourceUnavailable),
    };
    let mut k: usize = 0;
    while k < area
        invariant
            k <= area,
            data@.len() == k,
            forall|i: int| 0 <= i < data@.len() ==> generated_hex(#[trigger] data@[i]),
        decreases area - k,
    {
        let hex = if draw_bool(&mut rng) {
            Hex::Blank
        } else {
            Hex::Tile(draw_range(&mut rng, TILE_DEPTH_LOW, TILE_DEPTH_HIGH))
        };
        data.push(hex);
        k = k + 1;
    }
    Ok(MapData::new(side_len, data))
}

} // verus!
