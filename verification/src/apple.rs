//! Where the next apple goes: a random cell that the snake does not cover.

use crate::point::Point;
use crate::rectilinear::{LineModel, RectilinearLine};
use rand::distributions::{Distribution, Uniform};
use rand::rngs::StdRng;
use vstd::prelude::*;

verus! {

/// Trusted: rand's seeded standard generator, of which nothing is known
/// here. It is made from a seed once, by whoever makes the game, and
/// draws from that seed alone.
#[verifier::external_type_specification]
#[verifier::external_body]
pub struct ExStdRng(StdRng);

/// Trusted: rand's `Uniform::from` on the range from `low` to `high`, and
/// `Distribution::sample` on what it gives, with the standard generator.
/// The range is half open, and making it panics unless `low < high`; the
/// sample lies in it. Which value comes is left open.
#[verifier::external_body]
fn sample_between(rng: &mut StdRng, low: i32, high: i32) -> (v: i32)
    requires
        low < high,
    ensures
        low <= v < high,
{
    Uniform::from(low..high).sample(rng)
}

/// Draws the cells in which apples are tried: `x` from `x_low` up to, not
/// including, `x_high`, and `y` likewise.
#[derive(Debug)]
pub struct IVec2Generator {
    rng: StdRng,
    x_low: i32,
    x_high: i32,
    y_low: i32,
    y_high: i32,
}

impl IVec2Generator {
    pub closed spec fn x_low(&self) -> int {
        self.x_low as int
    }

    pub closed spec fn x_high(&self) -> int {
        self.x_high as int
    }

    pub closed spec fn y_low(&self) -> int {
        self.y_low as int
    }

    pub closed spec fn y_high(&self) -> int {
        self.y_high as int
    }

    /// Neither range is empty.
    pub open spec fn wf(&self) -> bool {
        self.x_low() < self.x_high() && self.y_low() < self.y_high()
    }

    /// The two generators draw from the same ranges.
    pub open spec fn same_ranges(&self, other: &IVec2Generator) -> bool {
        &&& self.x_low() == other.x_low()
        &&& self.x_high() == other.x_high()
        &&& self.y_low() == other.y_low()
        &&& self.y_high() == other.y_high()
    }

    /// `p` is a cell that the generator can draw.
    pub open spec fn covers(&self, p: Point) -> bool {
        self.x_low() <= p.x < self.x_high() && self.y_low() <= p.y < self.y_high()
    }

    /// No cell that the generator can draw is a cell of `body`: whatever
    /// is drawn can take an apple.
    pub open spec fn clear_of(&self, body: LineModel) -> bool {
        forall|p: Point| #[trigger] self.covers(p) ==> !body.occupies(p.x as int, p.y as int)
    }

    pub fn new(rng: StdRng, x_low: i32, x_high: i32, y_low: i32, y_high: i32) -> (generator:
        Self)
        requires
            x_low < x_high,
            y_low < y_high,
        ensures
            generator.wf(),
            generator.x_low() == x_low,
            generator.x_high() == x_high,
            generator.y_low() == y_low,
            generator.y_high() == y_high,
    {
        IVec2Generator { rng, x_low, x_high, y_low, y_high }
    }

    /// A random cell of the generator's ranges.
    pub fn gen_ivec2(&mut self) -> (p: Point)
        requires
            old(self).wf(),
        ensures
            final(self).wf(),
            final(self).same_ranges(old(self)),
            old(self).covers(p),
    {
        let x: i32 = sample_between(&mut self.rng, self.x_low, self.x_high);
        let y: i32 = sample_between(&mut self.rng, self.y_low, self.y_high);
        Point { x, y }
    }
}

/// The candidate, if the snake does not cover it.
pub fn accept_apple(candidate: Point, snake_body: &RectilinearLine) -> (apple: Option<Point>)
    requires
        snake_body@.fits(),
    ensures
        apple == if snake_body@.occupies(candidate.x as int, candidate.y as int) {
            None
        } else {
            Some(candidate)
        },
{
    if snake_body.collides_with_point(candidate) {
        None
    } else {
        Some(candidate)
    }
}

/// A new apple from `generator`: the first cell drawn that `snake_body`
/// does not cover. Where the snake covers none of the cells that can be
/// drawn, that is the first cell drawn, and there is an apple. Else the
/// draws decide; the search gives up, with `None`, after as many draws as
/// a `usize` counts.
pub fn generate_apple(generator: &mut IVec2Generator, snake_body: &RectilinearLine) -> (apple:
    Option<Point>)
    requires
        old(generator).wf(),
        snake_body@.fits(),
    ensures
        final(generator).wf(),
        final(generator).same_ranges(old(generator)),
        apple matches Some(p) ==> old(generator).covers(p) && !snake_body@.occupies(
            p.x as int,
            p.y as int,
        ),
        old(generator).clear_of(snake_body@) ==> apple.is_some(),
{
    let mut draws: usize = 0;
    while draws < usize::MAX
        invariant
            generator.wf(),
            generator.same_ranges(old(generator)),
            snake_body@.fits(),
            draws > 0 ==> !old(generator).clear_of(snake_body@),
        decreases usize::MAX - draws,
    {
        let point = generator.gen_ivec2();
        assert(old(generator).covers(point));
        let apple = accept_apple(point, snake_body);
        if apple.is_some() {
            return apple;
        }
        draws = draws + 1;
    }
    None
}

} // verus!
