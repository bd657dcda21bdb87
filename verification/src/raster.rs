//! Maps a run of samples onto a band of pixels and joins them with line
//! segments, newest sample at the right edge.

use crate::colour::Colour;
use crate::frame::all_in_reach;
use crate::frame::shapes;
use crate::frame::DrawOp;
use crate::frame::Shape;
use crate::frame::REACH;
use itertools::Itertools;
use vstd::prelude::*;

verus! {

/// Height in pixels of the band that a graph spans.
pub const BAND_HEIGHT: i32 = 30;

/// Horizontal distance in pixels between two neighbouring samples.
pub const STEP: i32 = 2;

/// Column of the newest sample.
pub const GRAPH_RIGHT: i32 = 123;

/// Left edge of the panel behind a graph.
pub const PANEL_LEFT: i32 = 4;

/// Width of the panel behind a graph.
pub const PANEL_WIDTH: u32 = 120;

/// Height of the panel behind a graph.
pub const PANEL_HEIGHT: u32 = 30;

/// Most samples that one graph takes: beyond it the columns would leave the
/// 32-bit coordinates.
pub const MAX_POINTS: usize = 0x4000_0000;

/// The span that sample values are scaled by: the distance between the
/// extrema, or 1 where they coincide.
pub open spec fn graph_range(graph_max: int, graph_min: int) -> int {
    if graph_max - graph_min == 0 {
        1
    } else {
        graph_max - graph_min
    }
}

/// The row of a sample: the band's top for the maximum, lower rows for
/// smaller values. Inside the window both operands of the division are
/// non-negative, so it truncates.
pub open spec fn mapped_y(value: int, graph_max: int, graph_min: int, y_origin: int) -> int {
    y_origin + ((graph_max - value) * BAND_HEIGHT) / graph_range(graph_max, graph_min)
}

/// Every sample lies between the two extrema.
pub open spec fn in_window(samples: Seq<i32>, graph_max: int, graph_min: int) -> bool {
    forall|i: int| 0 <= i < samples.len() ==> graph_min <= #[trigger] samples[i] <= graph_max
}

/// The `k`-th segment counted from the right: it joins the sample that is
/// `k` places before the newest with the one before it.
pub open spec fn segment(
    samples: Seq<i32>,
    k: int,
    graph_max: int,
    graph_min: int,
    y_origin: int,
    colour: Colour,
) -> Shape {
    let newer = samples[samples.len() - 1 - k];
    let older = samples[samples.len() - 2 - k];
    Shape::Line {
        x0: GRAPH_RIGHT - STEP * k,
        y0: mapped_y(newer as int, graph_max, graph_min, y_origin),
        x1: GRAPH_RIGHT - STEP * k - STEP,
        y1: mapped_y(older as int, graph_max, graph_min, y_origin),
        colour,
    }
}

/// The panel behind a graph, where a fill colour is given.
pub open spec fn panel(y_origin: int, back_colour: Option<Colour>) -> Seq<Shape> {
    match back_colour {
        Some(colour) => seq![
            Shape::FillRect {
                x: PANEL_LEFT as int,
                y: y_origin,
                width: PANEL_WIDTH as int,
                height: PANEL_HEIGHT as int,
                colour,
            },
        ],
        None => Seq::empty(),
    }
}

/// Everything that one graph draws: nothing for fewer than two samples,
/// else the panel and then one segment per pair of neighbours, from the
/// newest pair leftwards.
pub open spec fn graph_ops(
    samples: Seq<i32>,
    graph_max: int,
    graph_min: int,
    y_origin: int,
    line_colour: Colour,
    back_colour: Option<Colour>,
) -> Seq<Shape> {
    if samples.len() < 2 {
        Seq::empty()
    } else {
        panel(y_origin, back_colour) + Seq::new(
            (samples.len() - 1) as nat,
            |k: int| segment(samples, k, graph_max, graph_min, y_origin, line_colour),
        )
    }
}

/// Inside the window a row stays within the band.
pub proof fn lemma_mapped_y_in_band(value: int, graph_max: int, graph_min: int, y_origin: int)
    requires
        graph_min <= value <= graph_max,
    ensures
        y_origin <= mapped_y(value, graph_max, graph_min, y_origin) <= y_origin + BAND_HEIGHT,
{
    let range = graph_range(graph_max, graph_min);
    let drop = (graph_max - value) * BAND_HEIGHT;
    assert(0 <= drop <= range * BAND_HEIGHT) by (nonlinear_arith)
        requires
            0 <= graph_max - value <= range,
            drop == (graph_max - value) * BAND_HEIGHT,
            BAND_HEIGHT == 30,
    ;
    assert(0 <= drop / range <= BAND_HEIGHT) by (nonlinear_arith)
        requires
            0 <= drop <= range * BAND_HEIGHT,
            range > 0,
    ;
}

/// A larger value never lies lower on the screen: for two samples of one
/// window, the greater one gets the smaller or the same row.
pub proof fn lemma_mapped_y_monotone(
    a: int,
    b: int,
    graph_max: int,
    graph_min: int,
    y_origin: int,
)
    requires
        graph_min <= b < a <= graph_max,
    ensures
        mapped_y(a, graph_max, graph_min, y_origin) <= mapped_y(b, graph_max, graph_min, y_origin),
{
    let range = graph_range(graph_max, graph_min);
    let drop_a = (graph_max - a) * BAND_HEIGHT;
    let drop_b = (graph_max - b) * BAND_HEIGHT;
    assert(drop_a <= drop_b) by (nonlinear_arith)
        requires
            a > b,
            drop_a == (graph_max - a) * BAND_HEIGHT,
            drop_b == (graph_max - b) * BAND_HEIGHT,
            BAND_HEIGHT == 30,
    ;
    assert(drop_a / range <= drop_b / range) by (nonlinear_arith)
        requires
            drop_a <= drop_b,
            range > 0,
    ;
}

/// Samples that are all alike give a flat line along the top of the band:
/// the span between the extrema counts as 1, and both ends of every segment
/// lie on the row `y_origin`.
pub proof fn lemma_constant_samples_flat(
    samples: Seq<i32>,
    value: i32,
    y_origin: int,
    colour: Colour,
)
    requires
        samples.len() >= 2,
        forall|i: int| 0 <= i < samples.len() ==> samples[i] == value,
    ensures
        graph_range(value as int, value as int) == 1,
        mapped_y(value as int, value as int, value as int, y_origin) == y_origin,
        forall|k: int|
            0 <= k < samples.len() - 1 ==> #[trigger] segment(
                samples,
                k,
                value as int,
                value as int,
                y_origin,
                colour,
            ) == (Shape::Line {
                x0: GRAPH_RIGHT - STEP * k,
                y0: y_origin,
                x1: GRAPH_RIGHT - STEP * k - STEP,
                y1: y_origin,
                colour,
            }),
{
}

/// A graph of samples inside their window, not too many of them and in a
/// band within reach, keeps every step within reach.
pub proof fn lemma_graph_in_reach(
    samples: Seq<i32>,
    graph_max: int,
    graph_min: int,
    y_origin: int,
    line_colour: Colour,
    back_colour: Option<Colour>,
)
    requires
        in_window(samples, graph_max, graph_min),
        STEP * samples.len() <= REACH,
        -REACH <= y_origin <= REACH - BAND_HEIGHT,
    ensures
        all_in_reach(
            graph_ops(samples, graph_max, graph_min, y_origin, line_colour, back_colour),
        ),
{
    let steps = graph_ops(samples, graph_max, graph_min, y_origin, line_colour, back_colour);
    let behind = panel(y_origin, back_colour);
    assert forall|i: int| 0 <= i < steps.len() implies (#[trigger] steps[i]).in_reach() by {
        if i >= behind.len() {
            let k = i - behind.len();
            assert(steps[i] == segment(samples, k, graph_max, graph_min, y_origin, line_colour));
            let newer = samples[samples.len() - 1 - k];
            let older = samples[samples.len() - 2 - k];
            lemma_mapped_y_in_band(newer as int, graph_max, graph_min, y_origin);
            lemma_mapped_y_in_band(older as int, graph_max, graph_min, y_origin);
        }
    }
}

/// The row of `value` in a band whose top is `y_origin`.
pub fn map_y(value: i32, graph_max: i32, graph_min: i32, y_origin: i32) -> (y: i32)
    requires
        graph_min <= value <= graph_max,
        y_origin + BAND_HEIGHT <= i32::MAX,
    ensures
        y == mapped_y(value as int, graph_max as int, graph_min as int, y_origin as int),
        y_origin <= y <= y_origin + BAND_HEIGHT,
{
    let span: u64 = (graph_max as i64 - graph_min as i64) as u64;
    let range: u64 = if span == 0 {
        1
    } else {
        span
    };
    let drop: u64 = (graph_max as i64 - value as i64) as u64 * 30;
    let offset: u64 = drop / range;
    proof {
        lemma_mapped_y_in_band(value as int, graph_max as int, graph_min as int, y_origin as int);
    }
    y_origin + offset as i32
}

/// `Itertools::tuple_windows` for pairs: each item with its successor, in
/// the order of the first ones; nothing where there are fewer than two.
#[verifier::external_body]
fn adjacent_pairs(items: &Vec<i32>) -> (pairs: Vec<(i32, i32)>)
    ensures
        items@.len() < 2 ==> pairs@.len() == 0,
        items@.len() >= 2 ==> pairs@.len() == items@.len() - 1,
        forall|i: int|
            0 <= i < pairs@.len() ==> #[trigger] pairs@[i] == (items@[i], items@[i + 1]),
{
    items.iter().copied().tuple_windows::<(i32, i32)>().collect()
}

/// The samples from the newest to the oldest.
fn newest_first(samples: &Vec<i32>) -> (turned: Vec<i32>)
    ensures
        turned@ == samples@.reverse(),
{
    let mut turned: Vec<i32> = Vec::new();
    let mut taken: usize = 0;
    while taken < samples.len()
        invariant
            taken <= samples.len(),
            turned@.len() == taken,
            forall|i: int| 0 <= i < taken ==> turned@[i] == samples@[samples@.len() - 1 - i],
        decreases samples.len() - taken,
    {
        turned.push(samples[samples.len() - 1 - taken]);
        taken += 1;
    }
    assert(turned@ =~= samples@.reverse());
    turned
}

/// Draws `samples`, oldest first, as a line graph in the band that starts
/// at row `y_start`. With fewer than two samples nothing is drawn.
pub fn line_graph(
    samples: &Vec<i32>,
    graph_max: i32,
    graph_min: i32,
    y_start: i32,
    line_colour: Colour,
    back_colour: Option<Colour>,
) -> (ops: Vec<DrawOp>)
    requires
        in_window(samples@, graph_max as int, graph_min as int),
        samples.len() <= MAX_POINTS,
        y_start + BAND_HEIGHT <= i32::MAX,
    ensures
        shapes(ops@) == graph_ops(
            samples@,
            graph_max as int,
            graph_min as int,
            y_start as int,
            line_colour,
            back_colour,
        ),
{
    let mut ops: Vec<DrawOp> = Vec::new();
    if samples.len() < 2 {
        assert(shapes(ops@) =~= Seq::<Shape>::empty());
        return ops;
    }
    match back_colour {
        Some(colour) => {
            ops.push(
                DrawOp::FillRect {
                    x: PANEL_LEFT,
                    y: y_start,
                    width: PANEL_WIDTH,
                    height: PANEL_HEIGHT,
                    colour,
                },
            );
        },
        None => {},
    }
    let ghost behind = ops@;
    assert(shapes(behind) =~= panel(y_start as int, back_colour));
    let turned = newest_first(samples);
    let pairs = adjacent_pairs(&turned);
    let mut x_pos: i32 = GRAPH_RIGHT;
    let mut k: usize = 0;
    while k < pairs.len()
        invariant
            in_window(samples@, graph_max as int, graph_min as int),
            2 <= samples@.len() <= MAX_POINTS,
            y_start + BAND_HEIGHT <= i32::MAX,
            turned@ == samples@.reverse(),
            pairs@.len() == samples@.len() - 1,
            forall|i: int|
                0 <= i < pairs@.len() ==> #[trigger] pairs@[i] == (turned@[i], turned@[i + 1]),
            k <= pairs@.len(),
            x_pos == GRAPH_RIGHT - STEP * k,
            ops@.len() == behind.len() + k,
            forall|i: int| 0 <= i < behind.len() ==> ops@[i] == behind[i],
            forall|i: int|
                0 <= i < k ==> ops@[behind.len() + i]@ == segment(
                    samples@,
                    i,
                    graph_max as int,
                    graph_min as int,
                    y_start as int,
                    line_colour,
                ),
        decreases pairs@.len() - k,
    {
        let (newer, older) = pairs[k];
        assert(newer == samples@[samples@.len() - 1 - k]);
        assert(older == samples@[samples@.len() - 2 - k]);
        let newer_y = map_y(newer, graph_max, graph_min, y_start);
        let older_y = map_y(older, graph_max, graph_min, y_start);
        ops.push(
            DrawOp::Line {
                x0: x_pos,
                y0: newer_y,
                x1: x_pos - STEP,
                y1: older_y,
                colour: line_colour,
            },
        );
        x_pos -= STEP;
        k += 1;
    }
    assert(shapes(ops@) =~= graph_ops(
        samples@,
        graph_max as int,
        graph_min as int,
        y_start as int,
        line_colour,
        back_colour,
    ));
    ops
}

} // verus!
