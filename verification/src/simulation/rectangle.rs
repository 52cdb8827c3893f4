//! Axis-aligned rectangles on the simulation plane.

use rand::rngs::ThreadRng;
use rand::Rng;
use vstd::prelude::*;

use super::point::Point;

verus! {

/// The random number generator of the current thread, as `rand` hands it out.
#[verifier::external_type_specification]
#[verifier::external_body]
pub struct ExThreadRng(ThreadRng);

/// Calls `rand::thread_rng`. Nothing is stated of the generator it returns.
#[verifier::external_body]
fn thread_rng() -> ThreadRng {
    rand::thread_rng()
}

/// Calls `Rng::gen_range` with the half-open range `low..high`. The crate panics on an
/// empty range, hence `low < high`; the value it draws lies in the range, which is all
/// that is claimed of it.
#[verifier::external_body]
fn gen_range(rng: &mut ThreadRng, low: u32, high: u32) -> (r: u32)
    requires
        low < high,
    ensures
        low <= r < high,
{
    rng.gen_range(low..high)
}

/// An axis-aligned rectangle given by its lower corner and its extent.
#[derive(Clone, Debug, Default)]
pub struct Rectangle {
    pub origin: Point,
    pub width: u32,
    pub height: u32,
}

impl Rectangle {
    /// The rectangle covers `point`, borders included.
    pub open spec fn spec_contains(self, point: Point) -> bool {
        &&& self.origin.x <= point.x <= self.origin.x + self.width
        &&& self.origin.y <= point.y <= self.origin.y + self.height
    }

    /// The points that the random draw can produce: the rectangle without its far
    /// borders.
    pub open spec fn spec_interior_sample(self, point: Point) -> bool {
        &&& self.origin.x <= point.x < self.origin.x + self.width
        &&& self.origin.y <= point.y < self.origin.y + self.height
    }

    /// The rectangle has room to draw a point in and its far corner fits in `u32`.
    pub open spec fn can_sample(self) -> bool {
        &&& 0 < self.width
        &&& 0 < self.height
        &&& self.origin.x + self.width <= u32::MAX
        &&& self.origin.y + self.height <= u32::MAX
    }

    /// A uniformly random point of the rectangle, its far borders excluded.
    pub fn get_random_contained_point(&self) -> (p: Point)
        requires
            self.can_sample(),
        ensures
            self.spec_interior_sample(p),
            self.spec_contains(p),
    {
        let mut rng = thread_rng();
        let x = gen_range(&mut rng, self.origin.x, self.origin.x + self.width);
        let mut rng = thread_rng();
        let y = gen_range(&mut rng, self.origin.y, self.origin.y + self.height);
        Point { x, y }
    }

    /// Whether `point` lies in the rectangle, borders included.
    pub fn contains_point(&self, point: &Point) -> (res: bool)
        ensures
            res == self.spec_contains(*point),
    {
        let x = point.x as u64;
        let y = point.y as u64;
        let ox = self.origin.x as u64;
        let oy = self.origin.y as u64;
        x >= ox && x <= ox + self.width as u64 && y >= oy && y <= oy + self.height as u64
    }
}

/// A rectangle holds its four corners, borders included, and nothing left of,
/// right of, below or above them.
pub proof fn lemma_rectangle_corners(rect: Rectangle, p: Point)
    requires
        rect.origin.x + rect.width <= u32::MAX,
        rect.origin.y + rect.height <= u32::MAX,
    ensures
        rect.spec_contains(rect.origin),
        rect.spec_contains(Point { x: (rect.origin.x + rect.width) as u32, y: rect.origin.y }),
        rect.spec_contains(Point { x: rect.origin.x, y: (rect.origin.y + rect.height) as u32 }),
        rect.spec_contains(
            Point {
                x: (rect.origin.x + rect.width) as u32,
                y: (rect.origin.y + rect.height) as u32,
            },
        ),
        p.x < rect.origin.x ==> !rect.spec_contains(p),
        p.y < rect.origin.y ==> !rect.spec_contains(p),
        p.x > rect.origin.x + rect.width ==> !rect.spec_contains(p),
        p.y > rect.origin.y + rect.height ==> !rect.spec_contains(p),
{
}

/// Every point the random draw can produce is one that `contains_point` accepts.
pub proof fn lemma_sampled_point_is_contained(rect: Rectangle, point: Point)
    requires
        rect.spec_interior_sample(point),
    ensures
        rect.spec_contains(point),
{
}

} // verus!
