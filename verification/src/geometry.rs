//! Two-dimensional vectors, the four directions of travel and the clamp.

use vstd::prelude::*;

verus! {

/// A point or an extent in the plane, in length units.
#[derive(Clone, Copy, Debug, PartialEq, Eq, Structural)]
pub struct Vector2 {
    pub x: i64,
    pub y: i64,
}

/// One of the four directions in which the snake travels.
#[derive(Clone, Copy, Debug, PartialEq, Eq, Structural)]
pub enum Direction {
    Left,
    Right,
    Up,
    Down,
}

impl Direction {
    /// Horizontal component of the direction's unit vector.
    pub open spec fn dx(self) -> int {
        match self {
            Direction::Left => -1,
            Direction::Right => 1,
            Direction::Up => 0,
            Direction::Down => 0,
        }
    }

    /// Vertical component of the direction's unit vector.
    pub open spec fn dy(self) -> int {
        match self {
            Direction::Left => 0,
            Direction::Right => 0,
            Direction::Up => 1,
            Direction::Down => -1,
        }
    }

    /// The direction that points the other way.
    pub open spec fn reverse_spec(self) -> Direction {
        match self {
            Direction::Left => Direction::Right,
            Direction::Right => Direction::Left,
            Direction::Up => Direction::Down,
            Direction::Down => Direction::Up,
        }
    }

    /// The direction that points the other way.
    #[verifier::when_used_as_spec(reverse_spec)]
    pub fn reverse(self) -> (r: Direction)
        ensures
            r == self.reverse_spec(),
    {
        match self {
            Direction::Left => Direction::Right,
            Direction::Right => Direction::Left,
            Direction::Up => Direction::Down,
            Direction::Down => Direction::Up,
        }
    }

    /// The direction's unit vector.
    pub fn unit(self) -> (v: Vector2)
        ensures
            v.x == self.dx(),
            v.y == self.dy(),
    {
        match self {
            Direction::Left => Vector2 { x: -1, y: 0 },
            Direction::Right => Vector2 { x: 1, y: 0 },
            Direction::Up => Vector2 { x: 0, y: 1 },
            Direction::Down => Vector2 { x: 0, y: -1 },
        }
    }
}

/// `value` limited to the range from `low` to `high`.
pub open spec fn clamp(value: int, low: int, high: int) -> int {
    if value < low {
        low
    } else if value > high {
        high
    } else {
        value
    }
}

/// Limits a wide value to the range from `low` to `high`.
pub fn clamp_to(value: i128, low: i64, high: i64) -> (r: i64)
    requires
        low <= high,
    ensures
        r == clamp(value as int, low as int, high as int),
{
    if value < low as i128 {
        low
    } else if value > high as i128 {
        high
    } else {
        value as i64
    }
}

/// `value` limited to what a coordinate can hold.
pub open spec fn saturated(value: int) -> i64 {
    clamp(value, i64::MIN as int, i64::MAX as int) as i64
}

/// Whether `root` is the largest natural number whose square is at most `n`.
pub open spec fn is_floor_root(root: int, n: int) -> bool {
    0 <= root && root * root <= n < (root + 1) * (root + 1)
}

/// The square root of `n`, rounded down.
pub open spec fn floor_root(n: int) -> int {
    choose|root: int| is_floor_root(root, n)
}

/// A number that rounds the square root of `n` down is the only one.
pub proof fn lemma_floor_root_unique(root: int, n: int)
    requires
        is_floor_root(root, n),
    ensures
        root == floor_root(n),
{
    let other = floor_root(n);
    if root < other {
        assert((root + 1) * (root + 1) <= other * other) by (nonlinear_arith)
            requires
                0 <= root,
                root + 1 <= other,
        ;
    }
    if other < root {
        assert((other + 1) * (other + 1) <= root * root) by (nonlinear_arith)
            requires
                0 <= other,
                other + 1 <= root,
        ;
    }
}

/// The length of the vector `(a, b)`, rounded down.
pub fn hypot_floor(a: u64, b: u64) -> (root: u128)
    ensures
        is_floor_root(root as int, a * a + b * b),
        root == floor_root(a * a + b * b),
        root >= a,
        root >= b,
{
    let big: u128 = if a >= b { a as u128 } else { b as u128 };
    let small: u128 = if a >= b { b as u128 } else { a as u128 };
    let ghost n: int = big * big + small * small;
    assert(small * small <= 0xFFFF_FFFF_FFFF_FFFF * 0xFFFF_FFFF_FFFF_FFFF) by (nonlinear_arith)
        requires
            0 <= small <= 0xFFFF_FFFF_FFFF_FFFF,
    ;
    let small_square: u128 = small * small;
    let mut low: u128 = big;
    let mut high: u128 = big + small + 1;
    assert(n < (big + small + 1) * (big + small + 1)) by (nonlinear_arith)
        requires
            n == big * big + small * small,
            0 <= big,
            0 <= small,
    ;
    while high - low > 1
        invariant
            big <= low < high <= big + small + 1,
            big <= 0xFFFF_FFFF_FFFF_FFFF,
            small <= 0xFFFF_FFFF_FFFF_FFFF,
            small_square == small * small,
            n == big * big + small * small,
            low * low <= n < high * high,
        decreases high - low,
    {
        let mid: u128 = low + (high - low) / 2;
        let over: u128 = mid - big;
        let sum: u128 = mid + big;
        assert(over * sum == mid * mid - big * big) by (nonlinear_arith)
            requires
                over == mid - big,
                sum == mid + big,
        ;
        let fits = match over.checked_mul(sum) {
            Some(product) => product <= small_square,
            None => false,
        };
        if fits {
            low = mid;
        } else {
            high = mid;
        }
    }
    proof {
        lemma_floor_root_unique(low as int, n);
        assert(a * a + b * b == n) by (nonlinear_arith)
            requires
                n == big * big + small * small,
                (big == a && small == b) || (big == b && small == a),
        ;
    }
    low
}

/// The quotient of `numerator` by a positive `divisor`, rounded toward zero.
pub open spec fn toward_zero_quotient(numerator: int, divisor: int) -> int {
    if numerator >= 0 {
        numerator / divisor
    } else {
        -((-numerator) / divisor)
    }
}

/// One component of a step of `spacing` along a vector of the given
/// `length` whose component is `delta`: `delta * spacing / length`, rounded
/// toward zero.
pub open spec fn pull(delta: int, spacing: int, length: int) -> int {
    toward_zero_quotient(delta * spacing, length)
}

/// Computes one component of a step of `spacing` along a vector.
fn pull_exec(delta: i128, spacing: i64, length: u128) -> (offset: i128)
    requires
        -0x1_0000_0000_0000_0000 < delta < 0x1_0000_0000_0000_0000,
        length >= 1,
        length >= delta,
        length >= -delta,
    ensures
        offset == pull(delta as int, spacing as int, length as int),
        -0x8000_0000_0000_0000 <= offset <= 0x8000_0000_0000_0000,
{
    let size: u128 = if delta < 0 { (-delta) as u128 } else { delta as u128 };
    let wide: i128 = spacing as i128;
    let gap: u128 = if wide < 0 { (-wide) as u128 } else { wide as u128 };
    assert(size * gap <= length * gap) by (nonlinear_arith)
        requires
            size <= length,
            0 <= gap,
    ;
    assert(size * gap <= 0xFFFF_FFFF_FFFF_FFFF * 0x8000_0000_0000_0000) by (nonlinear_arith)
        requires
            0 <= size <= 0xFFFF_FFFF_FFFF_FFFF,
            0 <= gap <= 0x8000_0000_0000_0000,
    ;
    let product: u128 = size * gap;
    let quotient: u128 = product / length;
    assert(quotient <= gap) by (nonlinear_arith)
        requires
            quotient == product / length,
            product <= length * gap,
            length >= 1,
            0 <= gap,
            0 <= product,
    ;
    let against = (delta < 0) != (wide < 0);
    proof {
        let exact = delta as int * spacing as int;
        if against {
            assert(exact == -(size * gap)) by (nonlinear_arith)
                requires
                    exact == delta * spacing,
                    (size == -delta && gap == spacing) || (size == delta && gap == -spacing),
            ;
            assert(exact <= 0) by (nonlinear_arith)
                requires
                    exact == -(size * gap),
                    0 <= size,
                    0 <= gap,
            ;
        } else {
            assert(exact == size * gap) by (nonlinear_arith)
                requires
                    exact == delta * spacing,
                    (size == -delta && gap == -spacing) || (size == delta && gap == spacing),
            ;
        }
    }
    if against {
        -(quotient as i128)
    } else {
        quotient as i128
    }
}

/// The point that lies `spacing` behind `point` for something that heads in
/// `direction`. Each coordinate stops at the end of what a coordinate can
/// hold.
pub open spec fn behind(point: Vector2, direction: Direction, spacing: i64) -> Vector2 {
    Vector2 {
        x: saturated(point.x - direction.dx() * spacing),
        y: saturated(point.y - direction.dy() * spacing),
    }
}

/// The point that lies `spacing` away from `last` on the line through
/// `previous`, on the side of `previous` where `spacing` is positive. The
/// step's components are
/// `spacing` times the difference of the two points, divided by their
/// rounded-down distance and rounded toward zero; each coordinate stops at
/// the end of what a coordinate can hold. Two points in one place give no
/// line, and the result is `last`.
pub open spec fn toward(last: Vector2, previous: Vector2, spacing: i64) -> Vector2 {
    let dx = last.x - previous.x;
    let dy = last.y - previous.y;
    if dx == 0 && dy == 0 {
        last
    } else {
        let length = floor_root(dx * dx + dy * dy);
        Vector2 {
            x: saturated(last.x - pull(dx, spacing as int, length)),
            y: saturated(last.y - pull(dy, spacing as int, length)),
        }
    }
}

/// Computes the point `spacing` behind `point`.
pub fn step_behind(point: Vector2, direction: Direction, spacing: i64) -> (r: Vector2)
    ensures
        r == behind(point, direction, spacing),
{
    let x: i128 = point.x as i128;
    let y: i128 = point.y as i128;
    let step: i128 = spacing as i128;
    let (x, y) = match direction {
        Direction::Left => (x + step, y),
        Direction::Right => (x - step, y),
        Direction::Up => (x, y - step),
        Direction::Down => (x, y + step),
    };
    Vector2 { x: clamp_to(x, i64::MIN, i64::MAX), y: clamp_to(y, i64::MIN, i64::MAX) }
}

/// Computes the point `spacing` away from `last` toward `previous`.
pub fn step_toward(last: Vector2, previous: Vector2, spacing: i64) -> (r: Vector2)
    ensures
        r == toward(last, previous, spacing),
{
    let dx: i128 = last.x as i128 - previous.x as i128;
    let dy: i128 = last.y as i128 - previous.y as i128;
    if dx == 0 && dy == 0 {
        return last;
    }
    let ax: u64 = if dx < 0 { (-dx) as u64 } else { dx as u64 };
    let ay: u64 = if dy < 0 { (-dy) as u64 } else { dy as u64 };
    let length = hypot_floor(ax, ay);
    proof {
        assert(ax * ax == dx * dx) by (nonlinear_arith)
            requires
                ax == dx || ax == -dx,
        ;
        assert(ay * ay == dy * dy) by (nonlinear_arith)
            requires
                ay == dy || ay == -dy,
        ;
    }
    let off_x = pull_exec(dx, spacing, length);
    let off_y = pull_exec(dy, spacing, length);
    Vector2 {
        x: clamp_to(last.x as i128 - off_x, i64::MIN, i64::MAX),
        y: clamp_to(last.y as i128 - off_y, i64::MIN, i64::MAX),
    }
}

} // verus!
