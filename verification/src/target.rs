//! Where an agent is, where it wants to go, and the way it was told to take.
//!
//! Lengths and coordinates are whole numbers of thousandths of a map unit.

use vstd::prelude::*;

verus! {

/// A point of the map plane.
#[derive(Copy, Clone, Debug, PartialEq, Eq, Structural, Hash)]
pub struct Point {
    pub x: i32,
    pub y: i32,
}

/// The square of the distance between two points.
pub open spec fn distance_squared(a: Point, b: Point) -> int {
    (a.x - b.x) * (a.x - b.x) + (a.y - b.y) * (a.y - b.y)
}

impl Point {
    pub fn new(x: i32, y: i32) -> (point: Self)
        ensures
            point == (Point { x, y }),
    {
        Self { x, y }
    }

    /// The square of the distance to `other`.
    pub fn distance_squared(self, other: Point) -> (square: u128)
        ensures
            square == distance_squared(self, other),
    {
        let dx: i128 = self.x as i128 - other.x as i128;
        let dy: i128 = self.y as i128 - other.y as i128;
        assert(-0x1_0000_0000 < dx < 0x1_0000_0000 && -0x1_0000_0000 < dy < 0x1_0000_0000);
        assert(0 <= dx * dx <= 0x1_0000_0000_0000_0000 && 0 <= dy * dy <= 0x1_0000_0000_0000_0000)
            by (nonlinear_arith)
            requires
                -0x1_0000_0000 < dx < 0x1_0000_0000,
                -0x1_0000_0000 < dy < 0x1_0000_0000,
        ;
        (dx * dx + dy * dy) as u128
    }
}

/// The ceiling on the cost of one search.
#[derive(Copy, Clone, Debug, PartialEq, Eq, Structural, Hash)]
pub enum SearchEffort {
    /// The search gives up once its cost passes the limit.
    Limited(u32),
    /// The search runs until it has an answer.
    Unlimited,
}

/// How a search for a path is to be run.
#[derive(Copy, Clone, Debug, PartialEq, Eq, Structural, Hash)]
pub struct PathQueryProps {
    /// The distance from the target at which the agent has arrived.
    pub distance: u32,
    /// The ceiling on the cost of the search.
    pub max_effort: SearchEffort,
}

impl PathQueryProps {
    /// A search that must end on the target itself, at whatever cost.
    pub fn exact() -> (props: Self)
        ensures
            props == (PathQueryProps { distance: 0, max_effort: SearchEffort::Unlimited }),
    {
        Self { distance: 0, max_effort: SearchEffort::Unlimited }
    }

    /// # Arguments
    ///
    /// * `distance` - distance from the target at which the agent has arrived.
    ///
    /// * `max_effort` - ceiling on the cost of the search.
    pub fn new(distance: u32, max_effort: SearchEffort) -> (props: Self)
        ensures
            props == (PathQueryProps { distance, max_effort }),
    {
        Self { distance, max_effort }
    }

    pub fn distance(&self) -> (distance: u32)
        ensures
            distance == self.distance,
    {
        self.distance
    }

    pub fn max_effort(&self) -> (effort: SearchEffort)
        ensures
            effort == self.max_effort,
    {
        self.max_effort
    }
}

/// The destination of an agent.
#[derive(Copy, Clone, Debug, PartialEq, Eq, Structural, Hash)]
pub struct PathTarget {
    /// The desired destination.
    pub location: Point,
    /// How the search is to be run.
    pub properties: PathQueryProps,
    /// Whether the target stays with the agent when no path leads to it.
    pub permanent: bool,
}

impl PathTarget {
    /// Whether an agent at `position` has arrived: it stands no farther from
    /// the target than the arrival distance.
    pub open spec fn reached_from(self, position: Point) -> bool {
        distance_squared(position, self.location) <= self.properties.distance
            * self.properties.distance
    }

    /// The same destination, to be searched for at whatever cost.
    pub open spec fn unlimited(self) -> PathTarget {
        PathTarget {
            location: self.location,
            properties: PathQueryProps {
                distance: self.properties.distance,
                max_effort: SearchEffort::Unlimited,
            },
            permanent: self.permanent,
        }
    }

    /// # Arguments
    ///
    /// * `location` - desired destination.
    ///
    /// * `properties` - how the search is to be run.
    ///
    /// * `permanent` - whether the target stays with the agent when no path
    ///   leads to it.
    pub fn new(location: Point, properties: PathQueryProps, permanent: bool) -> (target: Self)
        ensures
            target == (PathTarget { location, properties, permanent }),
    {
        Self { location, properties, permanent }
    }

    pub fn location(&self) -> (location: Point)
        ensures
            location == self.location,
    {
        self.location
    }

    pub fn properties(&self) -> (properties: PathQueryProps)
        ensures
            properties == self.properties,
    {
        self.properties
    }

    pub fn permanent(&self) -> (permanent: bool)
        ensures
            permanent == self.permanent,
    {
        self.permanent
    }

    /// Whether an agent at `position` has arrived at the target.
    pub fn is_reached_from(&self, position: Point) -> (reached: bool)
        ensures
            reached == self.reached_from(position),
    {
        let limit: u128 = self.properties.distance as u128;
        assert(0 <= limit * limit <= 0x1_0000_0000_0000_0000) by (nonlinear_arith)
            requires
                0 <= limit <= 0x1_0000_0000,
        ;
        position.distance_squared(self.location) <= limit * limit
    }

    /// The same destination, to be searched for at whatever cost.
    pub fn with_unlimited_effort(&self) -> (target: Self)
        ensures
            target == self.unlimited(),
    {
        PathTarget::new(
            self.location,
            PathQueryProps::new(self.properties.distance, SearchEffort::Unlimited),
            self.permanent,
        )
    }
}

/// The way an agent takes: the points it passes, in order.
#[derive(Clone, Debug)]
pub struct Path {
    waypoints: Vec<Point>,
}

impl View for Path {
    type V = Seq<Point>;

    closed spec fn view(&self) -> Seq<Point> {
        self.waypoints@
    }
}

impl Path {
    pub fn new(waypoints: Vec<Point>) -> (path: Self)
        ensures
            path@ == waypoints@,
    {
        Self { waypoints }
    }

    pub fn waypoints(&self) -> (waypoints: &Vec<Point>)
        ensures
            waypoints@ == self@,
    {
        &self.waypoints
    }
}

} // verus!
