use vstd::prelude::*;

verus! {

/// Width of each range when `number` items are cut into `amount_of_points` parts.
pub open spec fn point_step(number: u32, amount_of_points: u32) -> int {
    number as int / amount_of_points as int
}

/// How many ranges `split_number_in_points` gives.
pub open spec fn point_count(number: u32, amount_of_points: u32) -> int {
    (number as int - 1) / point_step(number, amount_of_points)
}

/// `points` are the ranges `(k * s, (k + 1) * s)`, for `s` the step, taken in order
/// for every `k` whose range ends strictly before `number`.
pub open spec fn is_split_in_points(points: Seq<(u32, u32)>, number: u32, amount_of_points: u32) -> bool {
    let s = point_step(number, amount_of_points);
    &&& forall|k: int| 0 <= k < points.len() ==> {
        &&& #[trigger] points[k].0 == k * s
        &&& points[k].1 == (k + 1) * s
    }
    &&& points.len() * s < number
    &&& number <= (points.len() + 1) * s
}

/// Cuts `0..number` into consecutive ranges of `number / amount_of_points` items.
/// A last range that would reach `number` (or be shorter) is left out.
pub fn split_number_in_points(number: u32, amount_of_points: u32) -> (points: Vec<(u32, u32)>)
    requires
        1 < amount_of_points <= number,
    ensures
        is_split_in_points(points@, number, amount_of_points),
        points@.len() == point_count(number, amount_of_points),
{
    let step: u32 = number / amount_of_points;
    let ghost s = step as int;
    assert(s >= 1) by (nonlinear_arith)
        requires s == number as int / amount_of_points as int, amount_of_points <= number, amount_of_points > 1;
    let mut points: Vec<(u32, u32)> = Vec::new();
    let mut start: u32 = 0;
    let mut end: u32 = step;
    assert(points@.len() == 0);
    assert(0 * s == 0);
    assert(step <= number) by (nonlinear_arith)
        requires step == number as int / amount_of_points as int, amount_of_points > 1;
    while end < number
        invariant
            s == point_step(number, amount_of_points),
            s >= 1,
            step == s,
            step <= number,
            start == points.len() * s,
            start < number,
            end == (points.len() + 1) * s || (end == number && number <= (points.len() + 1) * s),
            forall|k: int| 0 <= k < points.len() ==> {
                &&& #[trigger] points@[k].0 == k * s
                &&& points@[k].1 == (k + 1) * s
            },
        decreases number - end,
    {
        let ghost k = points.len() as int;
        assert(end == (k + 1) * s);
        points.push((start, end));
        start = end;
        if end > number - step {
            end = number;
        } else {
            end = end + step;
        }
        assert((k + 2) * s == (k + 1) * s + s) by (nonlinear_arith);
    }
    proof {
        let n = points.len() as int;
        assert(n * s < number);
        assert(number <= (n + 1) * s);
        assert((number - 1) / s == n) by (nonlinear_arith)
            requires n * s < number, number <= (n + 1) * s, s >= 1, n >= 0;
    }
    points
}

} // verus!
