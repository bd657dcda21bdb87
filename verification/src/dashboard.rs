//! The render task's own state, the three histories, and the frame that is
//! drawn from them.

use crate::colour::Colour;
use crate::colour::AQUA;
use crate::colour::AQUAMARINE;
use crate::colour::BLACK;
use crate::colour::DARK_GREEN;
use crate::colour::FOREST_GREEN;
use crate::colour::ORANGE;
use crate::colour::ORANGE_RED;
use crate::colour::PANEL;
use crate::error::ErrorKind;
use crate::frame::all_in_reach;
use crate::frame::shapes;
use crate::frame::DrawOp;
use crate::frame::Shape;
use crate::frame::REACH;
use crate::history::latest;
use crate::history::lemma_extrema;
use crate::history::max_of;
use crate::history::min_of;
use crate::history::History;
use crate::history::CAPACITY;
use crate::label::byte_len;
use crate::label::co2_label;
use crate::label::co2_text;
use crate::label::fits;
use crate::label::humidity_label;
use crate::label::humidity_text;
use crate::label::temperature_label;
use crate::label::temperature_text;
use crate::raster::graph_ops;
use crate::raster::lemma_constant_samples_flat;
use crate::raster::lemma_graph_in_reach;
use crate::raster::line_graph;
use crate::raster::panel;
use crate::raster::BAND_HEIGHT;
use crate::raster::GRAPH_RIGHT;
use crate::raster::STEP;
use crate::reading::Reading;
use vstd::prelude::*;

verus! {

/// Top row of the band of the CO2 graph.
pub const CO2_BAND: i32 = 4;

/// Top row of the band of the temperature graph.
pub const TEMPERATURE_BAND: i32 = 38;

/// Top row of the band of the humidity graph.
pub const HUMIDITY_BAND: i32 = 72;

/// Column at which every readout starts.
pub const TEXT_LEFT: i32 = 5;

/// Row on which the CO2 readout stands.
pub const CO2_BASELINE: i32 = 34;

/// Row on which the temperature readout stands.
pub const TEMPERATURE_BASELINE: i32 = 68;

/// Row on which the humidity readout stands.
pub const HUMIDITY_BASELINE: i32 = 102;

/// The graph of one metric: scaled by the extrema of its own samples, on a
/// panel.
pub open spec fn metric_graph(samples: Seq<i32>, y_origin: int, colour: Colour) -> Seq<Shape> {
    graph_ops(
        samples,
        max_of(samples) as int,
        min_of(samples) as int,
        y_origin,
        colour,
        Some(PANEL),
    )
}

/// A metric that never changed draws as a flat line along the top of its
/// band: the extrema coincide, their span counts as 1, and every segment
/// runs along the row `y_origin`.
pub proof fn lemma_constant_metric_flat(
    samples: Seq<i32>,
    value: i32,
    y_origin: int,
    colour: Colour,
)
    requires
        samples.len() >= 2,
        forall|i: int| 0 <= i < samples.len() ==> samples[i] == value,
    ensures
        max_of(samples) == value,
        min_of(samples) == value,
        metric_graph(samples, y_origin, colour) == panel(y_origin, Some(PANEL)) + Seq::new(
            (samples.len() - 1) as nat,
            |k: int|
                Shape::Line {
                    x0: GRAPH_RIGHT - STEP * k,
                    y0: y_origin,
                    x1: GRAPH_RIGHT - STEP * k - STEP,
                    y1: y_origin,
                    colour,
                },
        ),
{
    lemma_extrema(samples);
    assert(samples[0] == value);
    lemma_constant_samples_flat(samples, value, y_origin, colour);
    assert(metric_graph(samples, y_origin, colour) =~= panel(y_origin, Some(PANEL)) + Seq::new(
        (samples.len() - 1) as nat,
        |k: int|
            Shape::Line {
                x0: GRAPH_RIGHT - STEP * k,
                y0: y_origin,
                x1: GRAPH_RIGHT - STEP * k - STEP,
                y1: y_origin,
                colour,
            },
    ));
}

/// The three readouts.
pub open spec fn readouts(co2: Seq<char>, temperature: Seq<char>, humidity: Seq<char>) -> Seq<
    Shape,
> {
    seq![
        Shape::Text {
            x: TEXT_LEFT as int,
            y: CO2_BASELINE as int,
            text: co2,
            colour: FOREST_GREEN,
        },
        Shape::Text {
            x: TEXT_LEFT as int,
            y: TEMPERATURE_BASELINE as int,
            text: temperature,
            colour: ORANGE_RED,
        },
        Shape::Text {
            x: TEXT_LEFT as int,
            y: HUMIDITY_BASELINE as int,
            text: humidity,
            colour: AQUAMARINE,
        },
    ]
}

/// One whole frame: the cleared background, the three graphs, and the
/// readouts on top.
pub open spec fn frame_shapes(
    co2: Seq<i32>,
    temperature: Seq<i32>,
    humidity: Seq<i32>,
    co2_label: Seq<char>,
    temperature_label: Seq<char>,
    humidity_label: Seq<char>,
) -> Seq<Shape> {
    seq![Shape::Clear { colour: BLACK }] + metric_graph(co2, CO2_BAND as int, DARK_GREEN)
        + metric_graph(temperature, TEMPERATURE_BAND as int, ORANGE) + metric_graph(
        humidity,
        HUMIDITY_BAND as int,
        AQUA,
    ) + readouts(co2_label, temperature_label, humidity_label)
}

/// The steps of two lists in a row are those of the first and then those of
/// the second.
pub proof fn lemma_shapes_concat(a: Seq<DrawOp>, b: Seq<DrawOp>)
    ensures
        shapes(a + b) == shapes(a) + shapes(b),
{
    assert(shapes(a + b) =~= shapes(a) + shapes(b));
}

/// A frame of histories within their capacity and of readouts that are not
/// absurdly long keeps every step within reach.
pub proof fn lemma_frame_in_reach(
    co2: Seq<i32>,
    temperature: Seq<i32>,
    humidity: Seq<i32>,
    co2_label: Seq<char>,
    temperature_label: Seq<char>,
    humidity_label: Seq<char>,
)
    requires
        co2.len() <= CAPACITY,
        temperature.len() <= CAPACITY,
        humidity.len() <= CAPACITY,
        byte_len(co2_label) <= REACH,
        byte_len(temperature_label) <= REACH,
        byte_len(humidity_label) <= REACH,
    ensures
        all_in_reach(
            frame_shapes(
                co2,
                temperature,
                humidity,
                co2_label,
                temperature_label,
                humidity_label,
            ),
        ),
{
    lemma_extrema(co2);
    lemma_extrema(temperature);
    lemma_extrema(humidity);
    lemma_graph_in_reach(
        co2,
        max_of(co2) as int,
        min_of(co2) as int,
        CO2_BAND as int,
        DARK_GREEN,
        Some(PANEL),
    );
    lemma_graph_in_reach(
        temperature,
        max_of(temperature) as int,
        min_of(temperature) as int,
        TEMPERATURE_BAND as int,
        ORANGE,
        Some(PANEL),
    );
    lemma_graph_in_reach(
        humidity,
        max_of(humidity) as int,
        min_of(humidity) as int,
        HUMIDITY_BAND as int,
        AQUA,
        Some(PANEL),
    );
    let first = seq![Shape::Clear { colour: BLACK }];
    let g1 = metric_graph(co2, CO2_BAND as int, DARK_GREEN);
    let g2 = metric_graph(temperature, TEMPERATURE_BAND as int, ORANGE);
    let g3 = metric_graph(humidity, HUMIDITY_BAND as int, AQUA);
    let texts = readouts(co2_label, temperature_label, humidity_label);
    let frame = first + g1 + g2 + g3 + texts;
    assert forall|i: int| 0 <= i < frame.len() implies (#[trigger] frame[i]).in_reach() by {
        if i < 1 {
        } else if i < 1 + g1.len() {
            assert(frame[i] == g1[i - 1]);
        } else if i < 1 + g1.len() + g2.len() {
            assert(frame[i] == g2[i - 1 - g1.len()]);
        } else if i < 1 + g1.len() + g2.len() + g3.len() {
            assert(frame[i] == g3[i - 1 - g1.len() - g2.len()]);
        } else {
            assert(frame[i] == texts[i - 1 - g1.len() - g2.len() - g3.len()]);
        }
    }
}

/// Adds the graph of `history` to `ops`.
fn draw_metric(ops: &mut Vec<DrawOp>, history: &History, y_start: i32, colour: Colour)
    requires
        y_start + BAND_HEIGHT <= i32::MAX,
    ensures
        shapes(final(ops)@) == shapes(old(ops)@) + metric_graph(history@, y_start as int, colour),
{
    let samples = history.samples();
    let greatest = history.max();
    let least = history.min();
    proof {
        lemma_extrema(samples@);
    }
    match (greatest, least) {
        (Some(graph_max), Some(graph_min)) => {
            let mut graph = line_graph(
                &samples,
                graph_max,
                graph_min,
                y_start,
                colour,
                Some(PANEL),
            );
            proof {
                lemma_shapes_concat(ops@, graph@);
            }
            ops.append(&mut graph);
        },
        _ => {
            assert(metric_graph(history@, y_start as int, colour) =~= Seq::<Shape>::empty());
            assert(shapes(ops@) + Seq::<Shape>::empty() =~= shapes(ops@));
        },
    }
}

/// The histories of the three metrics.
pub struct Dashboard {
    pub co2: History,
    pub temperature: History,
    pub humidity: History,
}

impl Dashboard {
    /// A dashboard that has seen no reading yet.
    pub fn new() -> (dashboard: Dashboard)
        ensures
            dashboard.co2@ == Seq::<i32>::empty(),
            dashboard.temperature@ == Seq::<i32>::empty(),
            dashboard.humidity@ == Seq::<i32>::empty(),
    {
        Dashboard { co2: History::new(), temperature: History::new(), humidity: History::new() }
    }

    /// Records `reading` as the newest sample of each metric.
    pub fn ingest(&mut self, reading: &Reading)
        ensures
            final(self).co2@ == latest(old(self).co2@.push(reading.plots().0)),
            final(self).temperature@ == latest(old(self).temperature@.push(reading.plots().1)),
            final(self).humidity@ == latest(old(self).humidity@.push(reading.plots().2)),
    {
        self.co2.push(reading.co2_sample());
        self.temperature.push(reading.temperature_sample());
        self.humidity.push(reading.humidity_sample());
    }

    /// Draws one frame from the histories as they are and the three
    /// readouts given.
    pub fn compose(&self, co2_label: String, temperature_label: String, humidity_label: String) -> (ops:
        Vec<DrawOp>)
        ensures
            shapes(ops@) == frame_shapes(
                self.co2@,
                self.temperature@,
                self.humidity@,
                co2_label@,
                temperature_label@,
                humidity_label@,
            ),
    {
        let mut ops: Vec<DrawOp> = Vec::new();
        ops.push(DrawOp::Clear { colour: BLACK });
        assert(shapes(ops@) =~= seq![Shape::Clear { colour: BLACK }]);
        draw_metric(&mut ops, &self.co2, CO2_BAND, DARK_GREEN);
        draw_metric(&mut ops, &self.temperature, TEMPERATURE_BAND, ORANGE);
        draw_metric(&mut ops, &self.humidity, HUMIDITY_BAND, AQUA);
        let ghost graphs = ops@;
        ops.push(
            DrawOp::Text { x: TEXT_LEFT, y: CO2_BASELINE, text: co2_label, colour: FOREST_GREEN },
        );
        ops.push(
            DrawOp::Text {
                x: TEXT_LEFT,
                y: TEMPERATURE_BASELINE,
                text: temperature_label,
                colour: ORANGE_RED,
            },
        );
        ops.push(
            DrawOp::Text {
                x: TEXT_LEFT,
                y: HUMIDITY_BASELINE,
                text: humidity_label,
                colour: AQUAMARINE,
            },
        );
        assert(shapes(ops@) =~= shapes(graphs) + readouts(
            co2_label@,
            temperature_label@,
            humidity_label@,
        ));
        ops
    }

    /// One render cycle: writes the readouts of `reading`, records it, and
    /// draws the frame. Where a readout does not fit its buffer the cycle
    /// fails with `FormatOverflow` before anything is recorded.
    pub fn render(&mut self, reading: &Reading) -> (frame: Result<Vec<DrawOp>, ErrorKind>)
        ensures
            readouts_fit(reading) ==> frame.is_ok() && final(self).co2@ == latest(
                old(self).co2@.push(reading.plots().0),
            ) && final(self).temperature@ == latest(
                old(self).temperature@.push(reading.plots().1),
            ) && final(self).humidity@ == latest(old(self).humidity@.push(reading.plots().2))
                && shapes(frame.unwrap()@) == frame_shapes(
                final(self).co2@,
                final(self).temperature@,
                final(self).humidity@,
                co2_text(reading.co2),
                temperature_text(reading.temperature.shown@),
                humidity_text(reading.humidity.shown@),
            ),
            !readouts_fit(reading) ==> frame == Err::<Vec<DrawOp>, ErrorKind>(
                ErrorKind::FormatOverflow,
            ) && final(self).co2@ == old(self).co2@ && final(self).temperature@ == old(
                self,
            ).temperature@ && final(self).humidity@ == old(self).humidity@,
    {
        let co2 = match co2_label(reading.co2) {
            Ok(text) => text,
            Err(error) => {
                return Err(error);
            },
        };
        let temperature = match temperature_label(reading.temperature.shown.as_str()) {
            Ok(text) => text,
            Err(error) => {
                return Err(error);
            },
        };
        let humidity = match humidity_label(reading.humidity.shown.as_str()) {
            Ok(text) => text,
            Err(error) => {
                return Err(error);
            },
        };
        self.ingest(reading);
        Ok(self.compose(co2, temperature, humidity))
    }
}

/// The temperature and humidity readouts of `reading` fit their buffers;
/// the CO2 readout always does.
pub open spec fn readouts_fit(reading: &Reading) -> bool {
    fits(temperature_text(reading.temperature.shown@)) && fits(
        humidity_text(reading.humidity.shown@),
    )
}

} // verus!
