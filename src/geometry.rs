use vstd::prelude::*;
use vstd::std_specs::convert::FromSpec;

verus! {

/// One of the six neighbour directions of a hex cell, in anticlockwise order
/// starting from `Up`. The order matters: a facing sector indexes into it.
#[derive(Clone, Copy, Debug, PartialEq, Eq, Structural)]
pub enum Dir {
    Up,
    UpLeft,
    DownLeft,
    Down,
    DownRight,
    UpRight,
}

/// A point in axial coordinates: `q` and `r` are the cube coordinates `a`
/// and `c`; `b` is implied.
#[derive(Clone, Copy, Debug, PartialEq, Eq, Structural)]
pub struct AxialPoint {
    pub q: i32,
    pub r: i32,
}

/// One of the three axes of a cube point.
#[derive(Clone, Copy, Debug, PartialEq, Eq, Structural)]
pub enum Axis {
    A,
    B,
    C,
}

/// A point in cube coordinates. Integer points that name a cell satisfy
/// `a + b + c == 0`.
#[derive(Clone, Copy, Debug, PartialEq, Eq, Structural)]
pub struct CubePoint<T> {
    pub a: T,
    pub b: T,
    pub c: T,
}

/// Position of a direction in the anticlockwise order, `0..6`.
pub open spec fn dir_index(d: Dir) -> nat {
    match d {
        Dir::Up => 0,
        Dir::UpLeft => 1,
        Dir::DownLeft => 2,
        Dir::Down => 3,
        Dir::DownRight => 4,
        Dir::UpRight => 5,
    }
}

/// The direction at position `i % 6` of the anticlockwise order.
pub open spec fn dir_at(i: nat) -> Dir {
    let k = i % 6;
    if k == 0 {
        Dir::Up
    } else if k == 1 {
        Dir::UpLeft
    } else if k == 2 {
        Dir::DownLeft
    } else if k == 3 {
        Dir::Down
    } else if k == 4 {
        Dir::DownRight
    } else {
        Dir::UpRight
    }
}

/// The unit offset that one step in direction `d` adds to a cell.
pub open spec fn dir_offset(d: Dir) -> CubePoint<int> {
    match d {
        Dir::Up => CubePoint { a: 0, b: 1, c: -1 },
        Dir::UpLeft => CubePoint { a: -1, b: 1, c: 0 },
        Dir::DownLeft => CubePoint { a: -1, b: 0, c: 1 },
        Dir::Down => CubePoint { a: 0, b: -1, c: 1 },
        Dir::DownRight => CubePoint { a: 1, b: -1, c: 0 },
        Dir::UpRight => CubePoint { a: 1, b: 0, c: -1 },
    }
}

/// An integer point read as a point over the mathematical integers.
pub open spec fn to_int(p: CubePoint<i32>) -> CubePoint<int> {
    CubePoint { a: p.a as int, b: p.b as int, c: p.c as int }
}

/// The cube invariant: the three coordinates sum to zero.
pub open spec fn zero_sum(p: CubePoint<int>) -> bool {
    p.a + p.b + p.c == 0
}

/// Every coordinate of `p` fits in an `i32`.
pub open spec fn fits_i32(p: CubePoint<int>) -> bool {
    &&& i32::MIN <= p.a <= i32::MAX
    &&& i32::MIN <= p.b <= i32::MAX
    &&& i32::MIN <= p.c <= i32::MAX
}

/// Componentwise sum over the integers.
pub open spec fn add_int(p: CubePoint<int>, q: CubePoint<int>) -> CubePoint<int> {
    CubePoint { a: p.a + q.a, b: p.b + q.b, c: p.c + q.c }
}

/// Componentwise difference over the integers.
pub open spec fn sub_int(p: CubePoint<int>, q: CubePoint<int>) -> CubePoint<int> {
    CubePoint { a: p.a - q.a, b: p.b - q.b, c: p.c - q.c }
}

/// Componentwise negation over the integers.
pub open spec fn neg_int(p: CubePoint<int>) -> CubePoint<int> {
    CubePoint { a: -p.a, b: -p.b, c: -p.c }
}

/// The direction at position `turns % 6` of the anticlockwise order: the
/// direction that a facing sector counted in sixths of a turn points along.
pub fn sector_dir(turns: usize) -> (r: Dir)
    ensures
        r == dir_at(turns as nat),
{
    let k: usize = turns % 6;
    if k == 0 {
        Dir::Up
    } else if k == 1 {
        Dir::UpLeft
    } else if k == 2 {
        Dir::DownLeft
    } else if k == 3 {
        Dir::Down
    } else if k == 4 {
        Dir::DownRight
    } else {
        Dir::UpRight
    }
}

impl Dir {
    /// Position of this direction in the anticlockwise order.
    pub fn index(self) -> (r: usize)
        ensures
            r as nat == dir_index(self),
            r < 6,
    {
        match self {
            Dir::Up => 0,
            Dir::UpLeft => 1,
            Dir::DownLeft => 2,
            Dir::Down => 3,
            Dir::DownRight => 4,
            Dir::UpRight => 5,
        }
    }

    /// The direction pointing the other way, three places further on.
    pub fn opposite(self) -> (r: Dir)
        ensures
            r == dir_at(dir_index(self) + 3),
            to_int(cube_dir_spec(r)) == neg_int(to_int(cube_dir_spec(self))),
    {
        proof {
            lemma_opposite_offset(self);
        }
        sector_dir(self.index() + 3)
    }
}

/// A sector number, reduced modulo 6, read as a direction.
impl From<u8> for Dir {
    fn from(n: u8) -> (r: Dir) {
        sector_dir(n as usize)
    }
}

impl vstd::std_specs::convert::FromSpecImpl<u8> for Dir {
    open spec fn obeys_from_spec() -> bool {
        true
    }

    open spec fn from_spec(n: u8) -> Dir {
        dir_at(n as nat)
    }
}

impl From<Dir> for u8 {
    fn from(d: Dir) -> (r: u8) {
        d.index() as u8
    }
}

impl vstd::std_specs::convert::FromSpecImpl<Dir> for u8 {
    open spec fn obeys_from_spec() -> bool {
        true
    }

    open spec fn from_spec(d: Dir) -> u8 {
        dir_index(d) as u8
    }
}

impl From<Dir> for usize {
    fn from(d: Dir) -> (r: usize) {
        d.index()
    }
}

impl vstd::std_specs::convert::FromSpecImpl<Dir> for usize {
    open spec fn obeys_from_spec() -> bool {
        true
    }

    open spec fn from_spec(d: Dir) -> usize {
        dir_index(d) as usize
    }
}

/// `cube_dir` as a spec function over `i32` points.
pub open spec fn cube_dir_spec(d: Dir) -> CubePoint<i32> {
    CubePoint {
        a: dir_offset(d).a as i32,
        b: dir_offset(d).b as i32,
        c: dir_offset(d).c as i32,
    }
}

/// Each neighbour offset is a unit step that keeps the cube invariant.
pub proof fn lemma_dir_offset_zero_sum(d: Dir)
    ensures
        zero_sum(dir_offset(d)),
        to_int(cube_dir_spec(d)) == dir_offset(d),
{
}

/// The offset of the direction three places on (the opposite one) is the
/// negation of the offset of `d`.
pub proof fn lemma_opposite_offset(d: Dir)
    ensures
        dir_offset(dir_at(dir_index(d) + 3)) == neg_int(dir_offset(d)),
        to_int(cube_dir_spec(dir_at(dir_index(d) + 3))) == neg_int(to_int(cube_dir_spec(d))),
{
}

/// Sums, differences and negations of points that satisfy the cube invariant
/// satisfy it too; in particular a cell stepped in any direction stays a cell.
pub proof fn lemma_zero_sum_closed(p: CubePoint<int>, q: CubePoint<int>, d: Dir)
    requires
        zero_sum(p),
        zero_sum(q),
    ensures
        zero_sum(add_int(p, q)),
        zero_sum(sub_int(p, q)),
        zero_sum(neg_int(p)),
        zero_sum(add_int(p, dir_offset(d))),
        zero_sum(sub_int(p, dir_offset(d))),
{
}

/// The unit offset of one step in direction `dir`.
pub fn cube_dir(dir: Dir) -> (r: CubePoint<i32>)
    ensures
        r == cube_dir_spec(dir),
        to_int(r) == dir_offset(dir),
{
    match dir {
        Dir::Up => CubePoint { a: 0, b: 1, c: -1 },
        Dir::UpLeft => CubePoint { a: -1, b: 1, c: 0 },
        Dir::DownLeft => CubePoint { a: -1, b: 0, c: 1 },
        Dir::Down => CubePoint { a: 0, b: -1, c: 1 },
        Dir::DownRight => CubePoint { a: 1, b: -1, c: 0 },
        Dir::UpRight => CubePoint { a: 1, b: 0, c: -1 },
    }
}

impl<T> CubePoint<T> {
    /// A point from its three coordinates, taken as they are.
    pub fn new(a: T, b: T, c: T) -> (r: Self)
        ensures
            r == (CubePoint { a, b, c }),
    {
        CubePoint { a, b, c }
    }

    /// Applies `map_fn` to each coordinate.
    pub fn map<U, F: Fn(T) -> U>(self, map_fn: F) -> (r: CubePoint<U>)
        requires
            map_fn.requires((self.a,)),
            map_fn.requires((self.b,)),
            map_fn.requires((self.c,)),
        ensures
            map_fn.ensures((self.a,), r.a),
            map_fn.ensures((self.b,), r.b),
            map_fn.ensures((self.c,), r.c),
    {
        CubePoint { a: map_fn(self.a), b: map_fn(self.b), c: map_fn(self.c) }
    }

    /// Converts each coordinate with `U::from`, as an integer cell is read
    /// as a real point.
    pub fn cast<U: From<T>>(self) -> (r: CubePoint<U>)
        ensures
            U::obeys_from_spec() ==> r == (CubePoint {
                a: U::from_spec(self.a),
                b: U::from_spec(self.b),
                c: U::from_spec(self.c),
            }),
    {
        CubePoint { a: U::from(self.a), b: U::from(self.b), c: U::from(self.c) }
    }
}

impl CubePoint<i32> {
    /// The cell with axial coordinates `q` and `r`: `a = q`, `c = r`, and `b`
    /// chosen so that the three sum to zero.
    pub fn from_q_r(q: i32, r: i32) -> (p: Self)
        requires
            i32::MIN <= -(q + r) <= i32::MAX,
        ensures
            p.a == q,
            p.c == r,
            p.b == -(q + r),
            zero_sum(to_int(p)),
    {
        let b: i32 = -(q as i64 + r as i64) as i32;
        CubePoint { a: q, b, c: r }
    }
}

impl std::ops::Add for CubePoint<i32> {
    type Output = CubePoint<i32>;

    /// Componentwise sum.
    fn add(self, rhs: Self) -> (r: Self::Output) {
        CubePoint { a: self.a + rhs.a, b: self.b + rhs.b, c: self.c + rhs.c }
    }
}

impl vstd::std_specs::ops::AddSpecImpl for CubePoint<i32> {
    open spec fn obeys_add_spec() -> bool {
        true
    }

    open spec fn add_req(self, rhs: Self) -> bool {
        fits_i32(add_int(to_int(self), to_int(rhs)))
    }

    open spec fn add_spec(self, rhs: Self) -> Self {
        CubePoint {
            a: (self.a + rhs.a) as i32,
            b: (self.b + rhs.b) as i32,
            c: (self.c + rhs.c) as i32,
        }
    }
}

impl std::ops::Sub for CubePoint<i32> {
    type Output = CubePoint<i32>;

    /// Componentwise difference.
    fn sub(self, rhs: Self) -> (r: Self::Output) {
        CubePoint { a: self.a - rhs.a, b: self.b - rhs.b, c: self.c - rhs.c }
    }
}

impl vstd::std_specs::ops::SubSpecImpl for CubePoint<i32> {
    open spec fn obeys_sub_spec() -> bool {
        true
    }

    open spec fn sub_req(self, rhs: Self) -> bool {
        fits_i32(sub_int(to_int(self), to_int(rhs)))
    }

    open spec fn sub_spec(self, rhs: Self) -> Self {
        CubePoint {
            a: (self.a - rhs.a) as i32,
            b: (self.b - rhs.b) as i32,
            c: (self.c - rhs.c) as i32,
        }
    }
}

impl std::ops::Neg for CubePoint<i32> {
    type Output = CubePoint<i32>;

    /// Componentwise negation.
    fn neg(self) -> (r: Self::Output) {
        CubePoint { a: -self.a, b: -self.b, c: -self.c }
    }
}

impl vstd::std_specs::ops::NegSpecImpl for CubePoint<i32> {
    open spec fn obeys_neg_spec() -> bool {
        true
    }

    open spec fn neg_req(self) -> bool {
        fits_i32(neg_int(to_int(self)))
    }

    open spec fn neg_spec(self) -> Self {
        CubePoint { a: -self.a as i32, b: -self.b as i32, c: -self.c as i32 }
    }
}

impl AxialPoint {
    pub fn new(q: i32, r: i32) -> (p: Self)
        ensures
            p == (AxialPoint { q, r }),
    {
        AxialPoint { q, r }
    }

    /// The same cell in cube coordinates.
    pub fn to_cube(self) -> (p: CubePoint<i32>)
        requires
            i32::MIN <= -(self.q + self.r) <= i32::MAX,
        ensures
            p.a == self.q,
            p.c == self.r,
            zero_sum(to_int(p)),
    {
        CubePoint::from_q_r(self.q, self.r)
    }
}

impl std::ops::Add for AxialPoint {
    type Output = AxialPoint;

    /// Componentwise sum.
    fn add(self, rhs: Self) -> (p: Self::Output) {
        AxialPoint { q: self.q + rhs.q, r: self.r + rhs.r }
    }
}

impl vstd::std_specs::ops::AddSpecImpl for AxialPoint {
    open spec fn obeys_add_spec() -> bool {
        true
    }

    open spec fn add_req(self, rhs: Self) -> bool {
        &&& i32::MIN <= self.q + rhs.q <= i32::MAX
        &&& i32::MIN <= self.r + rhs.r <= i32::MAX
    }

    open spec fn add_spec(self, rhs: Self) -> Self {
        AxialPoint { q: (self.q + rhs.q) as i32, r: (self.r + rhs.r) as i32 }
    }
}

/// A cube point in axial coordinates: `b` is dropped.
impl From<CubePoint<i32>> for AxialPoint {
    fn from(p: CubePoint<i32>) -> (r: AxialPoint) {
        AxialPoint { q: p.a, r: p.c }
    }
}

impl vstd::std_specs::convert::FromSpecImpl<CubePoint<i32>> for AxialPoint {
    open spec fn obeys_from_spec() -> bool {
        true
    }

    open spec fn from_spec(p: CubePoint<i32>) -> AxialPoint {
        AxialPoint { q: p.a, r: p.c }
    }
}

/// `p` with the coordinate on `axis` recomputed from the other two, so that
/// the three sum to zero.
pub open spec fn rebalanced(p: CubePoint<int>, axis: Axis) -> CubePoint<int> {
    match axis {
        Axis::A => CubePoint { a: -p.b - p.c, b: p.b, c: p.c },
        Axis::B => CubePoint { a: p.a, b: -p.a - p.c, c: p.c },
        Axis::C => CubePoint { a: p.a, b: p.b, c: -p.a - p.b },
    }
}

/// Restores the cube invariant of a point whose coordinates were rounded one
/// by one: the coordinate on `axis` (the one that rounding moved furthest) is
/// recomputed from the other two, which stay as they are.
pub fn rebalance(p: CubePoint<i32>, axis: Axis) -> (r: CubePoint<i32>)
    requires
        fits_i32(rebalanced(to_int(p), axis)),
    ensures
        to_int(r) == rebalanced(to_int(p), axis),
        zero_sum(to_int(r)),
{
    match axis {
        Axis::A => CubePoint::new(-(p.b as i64 + p.c as i64) as i32, p.b, p.c),
        Axis::B => CubePoint::new(p.a, -(p.a as i64 + p.c as i64) as i32, p.c),
        Axis::C => CubePoint::new(p.a, p.b, -(p.a as i64 + p.b as i64) as i32),
    }
}

/// A point that already names a cell is left as it is whichever axis is
/// recomputed: when rounding each coordinate of a cell's projection gives the
/// cell back, the correction keeps it.
pub proof fn lemma_rebalance_keeps_cells(p: CubePoint<int>, axis: Axis)
    requires
        zero_sum(p),
    ensures
        rebalanced(p, axis) == p,
{
}

/// The three cells that a rounded point may stand for, one for each axis
/// recomputed from the other two, in the order `a`, `b`, `c`.
pub fn snap_candidates(p: CubePoint<i32>) -> (r: [CubePoint<i32>; 3])
    requires
        fits_i32(rebalanced(to_int(p), Axis::A)),
        fits_i32(rebalanced(to_int(p), Axis::B)),
        fits_i32(rebalanced(to_int(p), Axis::C)),
    ensures
        to_int(r@[0]) == rebalanced(to_int(p), Axis::A),
        to_int(r@[1]) == rebalanced(to_int(p), Axis::B),
        to_int(r@[2]) == rebalanced(to_int(p), Axis::C),
        forall|i: int| 0 <= i < 3 ==> zero_sum(#[trigger] to_int(r@[i])),
{
    [rebalance(p, Axis::A), rebalance(p, Axis::B), rebalance(p, Axis::C)]
}

/// The cell that one step from `target` reaches along the facing sector
/// `turns` (counted in sixths of a turn, modulo 6) when `forwards`, or
/// against it otherwise.
pub open spec fn stepped(target: CubePoint<int>, turns: nat, forwards: bool) -> CubePoint<int> {
    if forwards {
        add_int(target, dir_offset(dir_at(turns)))
    } else {
        sub_int(target, dir_offset(dir_at(turns)))
    }
}

/// The new target cell of a unit move from `target` while facing sector
/// `turns`: one neighbour step forwards or backwards.
pub fn unit_move_target(target: CubePoint<i32>, turns: usize, forwards: bool) -> (r: CubePoint<i32>)
    requires
        fits_i32(stepped(to_int(target), turns as nat, forwards)),
    ensures
        to_int(r) == stepped(to_int(target), turns as nat, forwards),
        zero_sum(to_int(target)) ==> zero_sum(to_int(r)),
{
    let dir = cube_dir(sector_dir(turns));
    if forwards {
        target + dir
    } else {
        target - dir
    }
}

} // verus!
