use crate::params::{delay_in_range, qos_in_range, DELAY_LONGEST};
use vstd::prelude::*;

verus! {

/// One point of the grid: a quality-of-service level and a delay to exercise together.
#[derive(Clone, Copy, Debug, PartialEq, Eq, Structural)]
pub struct GridPoint {
    pub qos: i32,
    pub delay: i32,
}

/// The grid of points that a sweep goes through: every level with every delay. The plan
/// holds no position; whoever walks it keeps count.
#[derive(Clone, Debug, PartialEq, Eq)]
pub struct SweepPlan {
    levels: Vec<i32>,
    delays: Vec<i32>,
}

/// The points of the grid of `levels` and `delays`, level by level, and for each level delay
/// by delay.
pub open spec fn grid(levels: Seq<i32>, delays: Seq<i32>) -> Seq<GridPoint> {
    Seq::new(
        levels.len() * delays.len(),
        |k: int| GridPoint { qos: levels[k / (delays.len() as int)],
            delay: delays[k % (delays.len() as int)],
        },
    )
}

/// The grid has one point for each pair of a level and a delay, and the point of the level
/// at `i` and the delay at `j` stands at place `i * delays.len() + j`: levels outside, delays
/// inside.
pub proof fn lemma_grid_order(levels: Seq<i32>, delays: Seq<i32>, i: int, j: int)
    requires
        0 <= i < levels.len(),
        0 <= j < delays.len(),
    ensures
        grid(levels, delays).len() == levels.len() * delays.len(),
        0 <= i * delays.len() + j < grid(levels, delays).len(),
        grid(levels, delays)[i * delays.len() + j] == (GridPoint { qos: levels[i], delay: delays[j] }),
{
    let width: int = delays.len() as int;
    let k: int = i * width + j;
    assert(0 <= k < levels.len() * width) by (nonlinear_arith)
        requires
            0 <= i < levels.len(),
            0 <= j < width,
            k == i * width + j,
    ;
    assert(k / width == i && k % width == j) by (nonlinear_arith)
        requires
            0 <= j < width,
            0 <= i,
            k == i * width + j,
    ;
}

/// A place in the grid names one level and one delay.
pub proof fn lemma_grid_place(levels: Seq<i32>, delays: Seq<i32>, k: int)
    requires
        0 <= k < levels.len() * delays.len(),
    ensures
        delays.len() > 0,
        0 <= k / (delays.len() as int) < levels.len(),
        0 <= k % (delays.len() as int) < delays.len(),
        k == (k / (delays.len() as int)) * delays.len() + k % (delays.len() as int),
{
    let width: int = delays.len() as int;
    let height: int = levels.len() as int;
    assert(width > 0) by (nonlinear_arith)
        requires
            0 <= k < height * width,
            0 <= width,
    ;
    assert(0 <= k / width < height && 0 <= k % width < width && k == (k / width) * width + k
        % width) by (nonlinear_arith)
        requires
            0 <= k < height * width,
            0 < width,
    ;
}

impl View for SweepPlan {
    type V = Seq<GridPoint>;

    open spec fn view(&self) -> Seq<GridPoint> {
        grid(self.levels(), self.delays())
    }
}

impl SweepPlan {
    /// The levels that the plan was made from.
    pub closed spec fn levels(&self) -> Seq<i32> {
        self.levels@
    }

    /// The delays that the plan was made from.
    pub closed spec fn delays(&self) -> Seq<i32> {
        self.delays@
    }

    /// Whether every point of the plan lies in the parameters' ranges.
    pub open spec fn in_domain(&self, max_delay: int) -> bool {
        forall|k: int|
            0 <= k < self@.len() ==> qos_in_range((#[trigger] self@[k]).qos as int)
                && delay_in_range(self@[k].delay as int, max_delay)
    }

    /// The plan over the given levels and delays.
    pub fn new(levels: Vec<i32>, delays: Vec<i32>) -> (r: SweepPlan)
        ensures
            r.levels() == levels@,
            r.delays() == delays@,
            r@ == grid(levels@, delays@),
    {
        SweepPlan { levels, delays }
    }

    /// The plan of the standard sweep: the levels 0, 1 and 2, each with the delays 0, 10, 20,
    /// 50, 100 and 500.
    pub fn standard() -> (r: SweepPlan)
        ensures
            r.levels() == seq![0i32, 1, 2],
            r.delays() == seq![0i32, 10, 20, 50, 100, 500],
            r@ == grid(seq![0i32, 1, 2], seq![0i32, 10, 20, 50, 100, 500]),
            r@.len() == 18,
            r.in_domain(DELAY_LONGEST as int),
    {
        let mut levels: Vec<i32> = Vec::new();
        levels.push(0);
        levels.push(1);
        levels.push(2);
        let mut delays: Vec<i32> = Vec::new();
        delays.push(0);
        delays.push(10);
        delays.push(20);
        delays.push(50);
        delays.push(100);
        delays.push(500);
        assert(levels@ =~= seq![0i32, 1, 2]);
        assert(delays@ =~= seq![0i32, 10, 20, 50, 100, 500]);
        let plan = SweepPlan { levels, delays };
        assert forall|k: int| 0 <= k < plan@.len() implies qos_in_range(
            (#[trigger] plan@[k]).qos as int,
        ) && delay_in_range(plan@[k].delay as int, DELAY_LONGEST as int) by {
            lemma_grid_place(plan.levels@, plan.delays@, k);
        }
        plan
    }

    /// How many levels the plan has.
    pub fn level_count(&self) -> (r: usize)
        ensures
            r == self.levels().len(),
    {
        self.levels.len()
    }

    /// How many delays the plan has.
    pub fn delay_count(&self) -> (r: usize)
        ensures
            r == self.delays().len(),
    {
        self.delays.len()
    }

    /// The level at place `index` among the levels.
    pub fn level_at(&self, index: usize) -> (r: i32)
        requires
            index < self.levels().len(),
        ensures
            r == self.levels()[index as int],
    {
        self.levels[index]
    }

    /// The delay at place `index` among the delays.
    pub fn delay_at(&self, index: usize) -> (r: i32)
        requires
            index < self.delays().len(),
        ensures
            r == self.delays()[index as int],
    {
        self.delays[index]
    }

    /// How many points the plan has, or `None` where the count does not fit a `usize`.
    pub fn len(&self) -> (r: Option<usize>)
        ensures
            match r {
                Some(count) => count == self@.len(),
                None => self@.len() > usize::MAX,
            },
    {
        self.levels.len().checked_mul(self.delays.len())
    }

    /// The point at place `index`, or `None` where the plan has no such place.
    pub fn point(&self, index: usize) -> (r: Option<GridPoint>)
        ensures
            match r {
                Some(point) => index < self@.len() && point == self@[index as int],
                None => index >= self@.len(),
            },
    {
        let width: usize = self.delays.len();
        if width == 0 {
            assert(self.levels@.len() * 0 == 0);
            return None;
        }
        let row: usize = index / width;
        let column: usize = index % width;
        if row >= self.levels.len() {
            assert(index >= self.levels@.len() * width) by (nonlinear_arith)
                requires
                    row >= self.levels@.len(),
                    row == index / width,
                    width > 0,
            ;
            return None;
        }
        assert(index < self.levels@.len() * width) by (nonlinear_arith)
            requires
                row < self.levels@.len(),
                row == index / width,
                width > 0,
        ;
        Some(GridPoint { qos: self.levels[row], delay: self.delays[column] })
    }

    /// All points of the plan, in the order in which the sweep goes through them.
    pub fn points(&self) -> (r: Vec<GridPoint>)
        ensures
            r@ == self@,
    {
        let mut out: Vec<GridPoint> = Vec::new();
        let ghost width: int = self.delays@.len() as int;
        let mut i: usize = 0;
        while i < self.levels.len()
            invariant
                i <= self.levels.len(),
                width == self.delays@.len(),
                out@.len() == i * width,
                forall|k: int| 0 <= k < out@.len() ==> out@[k] == self@[k],
            decreases self.levels.len() - i,
        {
            let mut j: usize = 0;
            while j < self.delays.len()
                invariant
                    i < self.levels.len(),
                    j <= self.delays.len(),
                    width == self.delays@.len(),
                    out@.len() == i * width + j,
                    forall|k: int| 0 <= k < out@.len() ==> out@[k] == self@[k],
                decreases self.delays.len() - j,
            {
                proof {
                    lemma_grid_order(self.levels@, self.delays@, i as int, j as int);
                }
                out.push(GridPoint { qos: self.levels[i], delay: self.delays[j] });
                j += 1;
            }
            assert((i + 1) * width == i * width + width) by (nonlinear_arith);
            i += 1;
        }
        assert(out@ =~= self@);
        out
    }
}

} // verus!
