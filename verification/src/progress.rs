use vstd::prelude::*;
use vstd::arithmetic::div_mod::{
    lemma_div_is_ordered, lemma_div_multiples_vanish, lemma_div_of0, lemma_div_pos_is_pos,
};
use vstd::arithmetic::mul::{
    lemma_mul_basics, lemma_mul_inequality, lemma_mul_nonnegative, lemma_mul_unary_negation,
};
use crate::error::WidgetError;
use crate::geometry::Point;
use crate::renderable::Renderable;

verus! {

/// The quotient of `a` by `b` rounded toward zero: the quotient of the two
/// magnitudes, negated where exactly one of `a` and `b` is negative.
pub open spec fn quotient_toward_zero(a: int, b: int) -> int
    recommends
        b != 0,
{
    if a >= 0 && b > 0 {
        a / b
    } else if a >= 0 {
        -(a / (-b))
    } else if b > 0 {
        -((-a) / b)
    } else {
        (-a) / (-b)
    }
}

/// What a progress bar is: a row of `width` cells and a value within a range.
pub struct ProgressModel {
    pub origin: Point,
    pub width: int,
    pub min_value: int,
    pub max_value: int,
    pub value: int,
}

impl ProgressModel {
    /// Room for both brackets, and a range of non-zero length.
    pub open spec fn wf(self) -> bool {
        self.width >= 2 && self.min_value != self.max_value
    }

    /// The first column, counted from the bar's origin, that is left blank:
    /// the share of the `width - 2` inner cells that the value has reached,
    /// rounded toward zero, past the opening bracket. The value is not
    /// clamped, so this may lie outside the bar.
    pub open spec fn filled(self) -> int {
        quotient_toward_zero(
            (self.value - self.min_value) * (self.width - 2),
            self.max_value - self.min_value,
        ) + 1
    }

    /// A bar fills one row: brackets at both ends, `=` before `filled`, blanks
    /// after; nothing outside its `width` columns.
    pub open spec fn glyph_at(self, x: int, y: int) -> Option<char> {
        let column = x - self.origin.x;
        if y != self.origin.y || column < 0 || column >= self.width {
            None
        } else if column == 0 {
            Some('[')
        } else if column == self.width - 1 {
            Some(']')
        } else if column < self.filled() {
            Some('=')
        } else {
            Some(' ')
        }
    }
}

/// The share `r * n / d` of a count `n` that a part `r` of a whole `d`
/// stands for lies between 0 and `n`; it is 0 for no part and `n` for the
/// whole.
proof fn lemma_share_of_count(r: int, n: int, d: int)
    requires
        0 <= r <= d,
        0 < d,
        0 <= n,
    ensures
        0 <= r * n,
        0 <= (r * n) / d <= n,
        r == 0 ==> r * n == 0 && (r * n) / d == 0,
        r == d ==> (r * n) / d == n,
{
    lemma_mul_nonnegative(r, n);
    lemma_mul_inequality(r, d, n);
    lemma_div_pos_is_pos(r * n, d);
    lemma_div_is_ordered(r * n, d * n, d);
    lemma_div_multiples_vanish(n, d);
    lemma_mul_basics(n);
    lemma_div_of0(d);
}

/// The same for a range that may run downwards, with the quotient rounded
/// toward zero.
proof fn lemma_share_is_bounded(r: int, n: int, d: int)
    requires
        n >= 0,
        d != 0,
        (0 <= r <= d) || (d <= r <= 0),
    ensures
        0 <= quotient_toward_zero(r * n, d) <= n,
        r == 0 ==> quotient_toward_zero(r * n, d) == 0,
        r == d ==> quotient_toward_zero(r * n, d) == n,
{
    if d > 0 {
        lemma_share_of_count(r, n, d);
    } else {
        lemma_share_of_count(-r, n, -d);
        lemma_mul_unary_negation(r, n);
        assert(-(r * n) == (-r) * n);
    }
}

impl ProgressModel {
    /// While the value lies between the two ends of the range, the filled
    /// part stays between the brackets: it is empty at `min_value`, and
    /// reaches the closing bracket at `max_value`.
    pub proof fn lemma_filled_within_bar(self)
        requires
            self.wf(),
            (self.min_value <= self.value <= self.max_value) || (self.max_value <= self.value
                <= self.min_value),
        ensures
            1 <= self.filled() <= self.width - 1,
            self.value == self.min_value ==> self.filled() == 1,
            self.value == self.max_value ==> self.filled() == self.width - 1,
    {
        lemma_share_is_bounded(
            self.value - self.min_value,
            self.width - 2,
            self.max_value - self.min_value,
        );
    }
}

/// A one-row bar that shows how far a value has come within a range.
pub struct Progress {
    origin: Point,
    width: i32,
    min_value: i32,
    max_value: i32,
    value: i32,
}

impl View for Progress {
    type V = ProgressModel;

    closed spec fn view(&self) -> ProgressModel {
        ProgressModel {
            origin: self.origin,
            width: self.width as int,
            min_value: self.min_value as int,
            max_value: self.max_value as int,
            value: self.value as int,
        }
    }
}

/// Divides rounding toward zero, on magnitudes, where machine division and
/// the mathematical one agree.
fn divide_toward_zero(a: i128, b: i128) -> (q: i128)
    requires
        b != 0,
        i128::MIN < a,
        i128::MIN < b,
    ensures
        q == quotient_toward_zero(a as int, b as int),
{
    let a_magnitude: u128 = if a < 0 {
        (-a) as u128
    } else {
        a as u128
    };
    let b_magnitude: u128 = if b < 0 {
        (-b) as u128
    } else {
        b as u128
    };
    let q_magnitude: u128 = a_magnitude / b_magnitude;
    assert(q_magnitude <= a_magnitude) by (nonlinear_arith)
        requires
            q_magnitude == a_magnitude / b_magnitude,
            b_magnitude > 0,
    ;
    if (a < 0) == (b < 0) {
        q_magnitude as i128
    } else {
        -(q_magnitude as i128)
    }
}

impl Progress {
    #[verifier::type_invariant]
    spec fn well_formed(&self) -> bool {
        self.width >= 2 && self.min_value != self.max_value
    }

    /// A bar of `width` cells at `origin`, over the range from 0 to
    /// `width - 2`, one step per inner cell, with the value at 0.
    ///
    /// Fails with `InvalidGeometry` where `width < 2`, and with
    /// `InvalidRange` where `width == 2`, which leaves a range of length zero.
    pub fn new(origin: Point, width: i32) -> (made: Result<Progress, WidgetError>)
        ensures
            width < 2 <==> made == Err::<Progress, WidgetError>(WidgetError::InvalidGeometry),
            width == 2 <==> made == Err::<Progress, WidgetError>(WidgetError::InvalidRange),
            width > 2 <==> made is Ok,
            made matches Ok(bar) ==> bar@ == (ProgressModel {
                origin,
                width: width as int,
                min_value: 0,
                max_value: width - 2,
                value: 0,
            }),
    {
        if width < 2 {
            Err(WidgetError::InvalidGeometry)
        } else {
            Progress::with_range(origin, width, 0, width - 2)
        }
    }

    /// A bar of `width` cells at `origin`, over the range from `min_value`
    /// to `max_value`, with the value at `min_value`.
    ///
    /// Fails with `InvalidGeometry` where `width < 2`; otherwise with
    /// `InvalidRange` where the two ends of the range are equal.
    pub fn with_range(origin: Point, width: i32, min_value: i32, max_value: i32) -> (made: Result<
        Progress,
        WidgetError,
    >)
        ensures
            width < 2 <==> made == Err::<Progress, WidgetError>(WidgetError::InvalidGeometry),
            width >= 2 && min_value == max_value <==> made == Err::<Progress, WidgetError>(
                WidgetError::InvalidRange,
            ),
            width >= 2 && min_value != max_value <==> made is Ok,
            made matches Ok(bar) ==> bar@ == (ProgressModel {
                origin,
                width: width as int,
                min_value: min_value as int,
                max_value: max_value as int,
                value: min_value as int,
            }),
    {
        if width < 2 {
            Err(WidgetError::InvalidGeometry)
        } else if min_value == max_value {
            Err(WidgetError::InvalidRange)
        } else {
            Ok(Progress { origin, width, min_value, max_value, value: min_value })
        }
    }

    pub fn origin(&self) -> (origin: Point)
        ensures
            origin == self@.origin,
    {
        self.origin
    }

    pub fn width(&self) -> (width: i32)
        ensures
            width == self@.width,
            width >= 2,
    {
        proof {
            use_type_invariant(self);
        }
        self.width
    }

    pub fn min_value(&self) -> (min_value: i32)
        ensures
            min_value == self@.min_value,
    {
        self.min_value
    }

    pub fn max_value(&self) -> (max_value: i32)
        ensures
            max_value == self@.max_value,
            max_value != self@.min_value,
    {
        proof {
            use_type_invariant(self);
        }
        self.max_value
    }

    pub fn value(&self) -> (value: i32)
        ensures
            value == self@.value,
    {
        self.value
    }

    /// Moves the bar to `value`, which need not lie within the range.
    pub fn set_value(&mut self, value: i32)
        ensures
            final(self)@ == (ProgressModel { value: value as int, ..old(self)@ }),
    {
        proof {
            use_type_invariant(&*self);
        }
        self.value = value;
    }

    /// The first column left blank, as `ProgressModel::filled` defines it.
    pub fn filled(&self) -> (filled: i64)
        ensures
            filled == self@.filled(),
    {
        proof {
            use_type_invariant(self);
        }
        let reached: i128 = self.value as i128 - self.min_value as i128;
        let inner: i128 = self.width as i128 - 2;
        let range: i128 = self.max_value as i128 - self.min_value as i128;
        assert(-0x7fff_ffff_0000_0000 < reached * inner < 0x7fff_ffff_0000_0000)
            by (nonlinear_arith)
            requires
                -0x1_0000_0000 < reached < 0x1_0000_0000,
                0 <= inner < 0x7fff_fffe,
        ;
        let scaled: i128 = reached * inner;
        let quotient: i128 = divide_toward_zero(scaled, range);
        assert(-0x7fff_ffff_0000_0000 < quotient < 0x7fff_ffff_0000_0000) by (nonlinear_arith)
            requires
                quotient == quotient_toward_zero(scaled as int, range as int),
                -0x7fff_ffff_0000_0000 < scaled < 0x7fff_ffff_0000_0000,
                range != 0,
        ;
        (quotient + 1) as i64
    }
}

impl Renderable for Progress {
    open spec fn glyph_at(&self, x: int, y: int) -> Option<char> {
        self@.glyph_at(x, y)
    }

    fn render(&self, x: i32, y: i32) -> (glyph: Option<char>) {
        let column: i64 = x as i64 - self.origin.x as i64;
        if y != self.origin.y || column < 0 || column >= self.width as i64 {
            None
        } else if column == 0 {
            Some('[')
        } else if column == self.width as i64 - 1 {
            Some(']')
        } else if column < self.filled() {
            Some('=')
        } else {
            Some(' ')
        }
    }
}

} // verus!
