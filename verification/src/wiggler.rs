//! The wiggle pattern: a point on the screen and the four-direction cycle
//! that nudges it around a small square.

use vstd::prelude::*;

verus! {

/// A cursor position in screen coordinates.
#[derive(Clone, Copy, Debug, PartialEq, Eq, Structural)]
pub struct Point {
    pub x: i32,
    pub y: i32,
}

/// How far one wiggle moves the cursor along its axis.
pub const WIGGLE_DISPLACEMENT: i32 = 5;

/// The `i32` reached from `v` by `delta`, where the ends of the `i32` range
/// are joined: one step past `i32::MAX` is `i32::MIN`, and the other way round.
pub open spec fn shifted(v: i32, delta: int) -> i32
    recommends
        -0x1_0000_0000 < delta < 0x1_0000_0000,
{
    if v + delta > i32::MAX {
        (v + delta - 0x1_0000_0000) as i32
    } else if v + delta < i32::MIN {
        (v + delta + 0x1_0000_0000) as i32
    } else {
        (v + delta) as i32
    }
}

/// `q` lies exactly one wiggle away from `p`: one coordinate differs by the
/// displacement, the other is the same.
pub open spec fn one_wiggle_apart(p: Point, q: Point) -> bool {
    ||| q.x == p.x && (q.y == p.y - WIGGLE_DISPLACEMENT || q.y == p.y + WIGGLE_DISPLACEMENT)
    ||| q.y == p.y && (q.x == p.x - WIGGLE_DISPLACEMENT || q.x == p.x + WIGGLE_DISPLACEMENT)
}

/// Forms a state machine that applies transformations
/// to mouse position in a cycle.
///
/// ```text
///     RIGHT
///   +------->
///   ^       |
/// UP|       |DOWN
///   |       v
///   <-------+
///     LEFT
/// ```
#[derive(Clone, Copy, Debug, PartialEq, Eq, Structural)]
pub enum Wiggler {
    Up,
    Down,
    Left,
    Right,
}

impl Default for Wiggler {
    fn default() -> (w: Wiggler)
        ensures
            w == Wiggler::Up,
    {
        Wiggler::Up
    }
}

impl Wiggler {
    /// The direction that follows `self` in the cycle.
    pub open spec fn spec_next(&self) -> Wiggler {
        match self {
            Wiggler::Up => Wiggler::Right,
            Wiggler::Right => Wiggler::Down,
            Wiggler::Down => Wiggler::Left,
            Wiggler::Left => Wiggler::Up,
        }
    }

    /// The direction reached from `self` after `n` steps of the cycle.
    pub open spec fn advance(self, n: nat) -> Wiggler
        decreases n,
    {
        if n == 0 {
            self
        } else {
            self.spec_next().advance((n - 1) as nat)
        }
    }

    /// The change that a wiggle in this direction makes to `x`.
    /// Screen coordinates grow to the right.
    pub open spec fn dx(self) -> int {
        match self {
            Wiggler::Right => WIGGLE_DISPLACEMENT as int,
            Wiggler::Left => -(WIGGLE_DISPLACEMENT as int),
            _ => 0,
        }
    }

    /// The change that a wiggle in this direction makes to `y`.
    /// Screen coordinates grow downwards.
    pub open spec fn dy(self) -> int {
        match self {
            Wiggler::Down => WIGGLE_DISPLACEMENT as int,
            Wiggler::Up => -(WIGGLE_DISPLACEMENT as int),
            _ => 0,
        }
    }

    /// Where a wiggle in this direction puts `p`.
    pub open spec fn displace(self, p: Point) -> Point {
        Point { x: shifted(p.x, self.dx()), y: shifted(p.y, self.dy()) }
    }

    /// The wiggle in this direction keeps `p` inside the `i32` range.
    pub open spec fn fits(self, p: Point) -> bool {
        &&& i32::MIN <= p.x + self.dx() <= i32::MAX
        &&& i32::MIN <= p.y + self.dy() <= i32::MAX
    }

    /// The direction and the point after `n` wiggles in a row, starting in
    /// direction `self` at `p`.
    pub open spec fn wiggle(self, p: Point, n: nat) -> (Wiggler, Point)
        decreases n,
    {
        if n == 0 {
            (self, p)
        } else {
            self.spec_next().wiggle(self.displace(p), (n - 1) as nat)
        }
    }

    /// The direction that follows this one.
    #[verifier::when_used_as_spec(spec_next)]
    pub fn next(&self) -> (w: Wiggler)
        ensures
            w == self.spec_next(),
    {
        match self {
            Wiggler::Up => Wiggler::Right,
            Wiggler::Right => Wiggler::Down,
            Wiggler::Down => Wiggler::Left,
            Wiggler::Left => Wiggler::Up,
        }
    }

    /// Moves `point` by one wiggle in the current direction and turns to the
    /// next direction. A coordinate at the very end of the `i32` range wraps
    /// round to the other end; everywhere else the point ends exactly one
    /// displacement away along one axis.
    pub fn transform(&mut self, point: &mut Point)
        ensures
            *final(point) == old(self).displace(*old(point)),
            *final(self) == old(self).spec_next(),
            old(self).fits(*old(point)) ==> one_wiggle_apart(*old(point), *final(point)),
    {
        match self {
            Wiggler::Up => point.y = point.y.wrapping_sub(WIGGLE_DISPLACEMENT),
            Wiggler::Right => point.x = point.x.wrapping_add(WIGGLE_DISPLACEMENT),
            Wiggler::Down => point.y = point.y.wrapping_add(WIGGLE_DISPLACEMENT),
            Wiggler::Left => point.x = point.x.wrapping_sub(WIGGLE_DISPLACEMENT),
        }
        *self = self.next();
    }
}

/// Four steps of the cycle lead back to the direction they began with,
/// whichever that was.
pub proof fn lemma_next_cycle(d: Wiggler)
    ensures
        d.spec_next().spec_next().spec_next().spec_next() == d,
        d.advance(4) == d,
{
    reveal_with_fuel(Wiggler::advance, 5);
}

/// The cycle has period four over runs of any length: four steps more make
/// no difference.
pub proof fn lemma_advance_period(d: Wiggler, n: nat)
    ensures
        d.advance(n + 4) == d.advance(n),
    decreases n,
{
    if n == 0 {
        lemma_next_cycle(d);
    } else {
        lemma_advance_period(d.spec_next(), (n - 1) as nat);
    }
}

/// Any whole number of rounds of the cycle leads back to the start.
pub proof fn lemma_advance_rounds(d: Wiggler, rounds: nat)
    ensures
        d.advance(4 * rounds) == d,
    decreases rounds,
{
    if rounds > 0 {
        lemma_advance_rounds(d, (rounds - 1) as nat);
        lemma_advance_period(d, (4 * (rounds - 1)) as nat);
    }
}

/// A wiggle changes exactly one coordinate and leaves the other as it was:
/// `y` when going up or down, `x` when going left or right. Where the wiggle
/// fits into the `i32` range, the change is exactly the displacement:
/// up takes it from `y`, down adds it to `y`, left takes it from `x`, right
/// adds it to `x`.
pub proof fn lemma_displacement(d: Wiggler, p: Point)
    ensures
        d.displace(p) != p,
        d.displace(p).x == p.x || d.displace(p).y == p.y,
        (d == Wiggler::Up || d == Wiggler::Down) ==> d.displace(p).x == p.x,
        (d == Wiggler::Left || d == Wiggler::Right) ==> d.displace(p).y == p.y,
        d.fits(p) ==> one_wiggle_apart(p, d.displace(p)),
        d.fits(p) && d == Wiggler::Up ==> d.displace(p).y == p.y - WIGGLE_DISPLACEMENT,
        d.fits(p) && d == Wiggler::Down ==> d.displace(p).y == p.y + WIGGLE_DISPLACEMENT,
        d.fits(p) && d == Wiggler::Left ==> d.displace(p).x == p.x - WIGGLE_DISPLACEMENT,
        d.fits(p) && d == Wiggler::Right ==> d.displace(p).x == p.x + WIGGLE_DISPLACEMENT,
{
}

/// Four wiggles in a row, starting in any direction, bring any point back to
/// exactly where it was, and the cycle back to the direction it began with:
/// the square closes.
pub proof fn lemma_net_zero(d: Wiggler, p: Point)
    ensures
        d.wiggle(p, 4) == (d, p),
{
    reveal_with_fuel(Wiggler::wiggle, 5);
}

/// After `n` wiggles the cycle stands where `n` steps take it.
pub proof fn lemma_wiggle_direction(d: Wiggler, p: Point, n: nat)
    ensures
        d.wiggle(p, n).0 == d.advance(n),
    decreases n,
{
    if n > 0 {
        lemma_wiggle_direction(d.spec_next(), d.displace(p), (n - 1) as nat);
    }
}

/// Wiggling has period four: four wiggles more leave both the point and the
/// direction as they were.
pub proof fn lemma_wiggle_period(d: Wiggler, p: Point, n: nat)
    ensures
        d.wiggle(p, n + 4) == d.wiggle(p, n),
    decreases n,
{
    if n == 0 {
        lemma_net_zero(d, p);
    } else {
        lemma_wiggle_period(d.spec_next(), d.displace(p), (n - 1) as nat);
    }
}

} // verus!
