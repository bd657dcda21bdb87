use embedded_graphics::pixelcolor::{Rgb565, RgbColor, WebColors};
use embedded_graphics::prelude::IntoStorage;
use pico_env_sensor::colour;
use pico_env_sensor::error::ErrorKind;
use pico_env_sensor::frame::DrawOp;
use pico_env_sensor::history::History;
use pico_env_sensor::label::{co2_label, compose_label, humidity_label, temperature_label};
use pico_env_sensor::raster::{line_graph, map_y};

#[test]
fn history_keeps_the_last_sixty_of_more() {
    let mut history = History::new();
    let mut value: i32 = 0;
    while value < 60 + 25 {
        history.push(value);
        value += 1;
    }
    let expected: Vec<i32> = (25..85).collect();
    assert_eq!(history.len(), 60);
    assert_eq!(history.samples(), expected);
}

#[test]
fn history_below_capacity_keeps_everything() {
    let mut history = History::new();
    assert_eq!(history.len(), 0);
    assert_eq!(history.samples(), Vec::<i32>::new());
    history.push(3);
    history.push(-4);
    history.push(3);
    assert_eq!(history.len(), 3);
    assert_eq!(history.samples(), vec![3, -4, 3]);
}

#[test]
fn history_at_exactly_capacity_evicts_nothing() {
    let mut history = History::new();
    let mut value: i32 = 0;
    while value < 60 {
        history.push(value);
        value += 1;
    }
    let expected: Vec<i32> = (0..60).collect();
    assert_eq!(history.samples(), expected);
}

#[test]
fn empty_history_has_no_extrema() {
    let history = History::new();
    assert_eq!(history.min(), None);
    assert_eq!(history.max(), None);
}

#[test]
fn extrema_follow_eviction() {
    let mut history = History::new();
    history.push(-1000);
    history.push(9000);
    let mut value: i32 = 0;
    while value < 59 {
        history.push(value);
        value += 1;
    }
    assert_eq!(history.min(), Some(0));
    assert_eq!(history.max(), Some(9000));
    history.push(7);
    assert_eq!(history.min(), Some(0));
    assert_eq!(history.max(), Some(58));
}

#[test]
fn extrema_of_extreme_values() {
    let mut history = History::new();
    history.push(i32::MAX);
    assert_eq!(history.min(), Some(i32::MAX));
    assert_eq!(history.max(), Some(i32::MAX));
    history.push(i32::MIN);
    assert_eq!(history.min(), Some(i32::MIN));
    assert_eq!(history.max(), Some(i32::MAX));
}

#[test]
fn map_y_scales_into_the_band() {
    assert_eq!(map_y(420, 420, 400, 4), 4);
    assert_eq!(map_y(400, 420, 400, 4), 34);
    assert_eq!(map_y(410, 420, 400, 4), 19);
    assert_eq!(map_y(413, 420, 400, 4), 14);
    assert_eq!(map_y(-5, 5, -5, 72), 102);
    assert_eq!(map_y(0, 5, -5, 72), 87);
}

#[test]
fn map_y_of_a_constant_window_is_the_origin() {
    assert_eq!(map_y(7, 7, 7, 38), 38);
    assert_eq!(map_y(0, 0, 0, 0), 0);
    assert_eq!(map_y(i32::MIN, i32::MIN, i32::MIN, -3), -3);
}

#[test]
fn map_y_survives_the_widest_window() {
    assert_eq!(map_y(i32::MAX, i32::MAX, i32::MIN, 4), 4);
    assert_eq!(map_y(i32::MIN, i32::MAX, i32::MIN, 4), 34);
    assert_eq!(map_y(0, i32::MAX, i32::MIN, 4), 18);
    assert_eq!(map_y(5, 10, 0, i32::MAX - 30), i32::MAX - 15);
}

#[test]
fn map_y_never_rises_with_the_value() {
    let mut value: i32 = -50;
    while value < 50 {
        assert!(map_y(value + 1, 50, -50, 10) <= map_y(value, 50, -50, 10));
        value += 1;
    }
}

#[test]
fn line_graph_of_constant_samples_is_flat() {
    let ops = line_graph(&vec![7, 7, 7, 7], 7, 7, 4, colour::DARK_GREEN, None);
    assert_eq!(
        ops,
        vec![
            DrawOp::Line { x0: 123, y0: 4, x1: 121, y1: 4, colour: 0x0320 },
            DrawOp::Line { x0: 121, y0: 4, x1: 119, y1: 4, colour: 0x0320 },
            DrawOp::Line { x0: 119, y0: 4, x1: 117, y1: 4, colour: 0x0320 },
        ]
    );
}

#[test]
fn line_graph_walks_leftwards_from_the_newest() {
    let ops = line_graph(&vec![400, 410, 420, 405], 420, 400, 4, 1, Some(2));
    assert_eq!(
        ops,
        vec![
            DrawOp::FillRect { x: 4, y: 4, width: 120, height: 30, colour: 2 },
            DrawOp::Line { x0: 123, y0: 26, x1: 121, y1: 4, colour: 1 },
            DrawOp::Line { x0: 121, y0: 4, x1: 119, y1: 19, colour: 1 },
            DrawOp::Line { x0: 119, y0: 19, x1: 117, y1: 34, colour: 1 },
        ]
    );
}

#[test]
fn line_graph_of_fewer_than_two_samples_draws_nothing() {
    assert_eq!(line_graph(&vec![], 0, 0, 4, 1, Some(2)), Vec::<DrawOp>::new());
    assert_eq!(line_graph(&vec![5], 5, 5, 4, 1, Some(2)), Vec::<DrawOp>::new());
    assert_eq!(line_graph(&vec![5], 5, 5, 4, 1, None), Vec::<DrawOp>::new());
}

#[test]
fn line_graph_of_a_full_history_ends_at_the_left_edge() {
    let samples: Vec<i32> = (0..60).collect();
    let ops = line_graph(&samples, 59, 0, 72, 1, None);
    assert_eq!(ops.len(), 59);
    assert_eq!(ops[0], DrawOp::Line { x0: 123, y0: 72, x1: 121, y1: 72, colour: 1 });
    assert_eq!(ops[58], DrawOp::Line { x0: 7, y0: 101, x1: 5, y1: 102, colour: 1 });
}

#[test]
fn co2_readout_of_any_count_fits() {
    assert_eq!(co2_label(400).unwrap(), "CO2: 400 ppm");
    assert_eq!(co2_label(0).unwrap(), "CO2: 0 ppm");
    assert_eq!(co2_label(9).unwrap(), "CO2: 9 ppm");
    assert_eq!(co2_label(10).unwrap(), "CO2: 10 ppm");
    assert_eq!(co2_label(65535).unwrap(), "CO2: 65535 ppm");
}

#[test]
fn measured_readouts() {
    assert_eq!(temperature_label("20.0").unwrap(), "Temp: 20.0 C");
    assert_eq!(humidity_label("40.5").unwrap(), "RH: 40.5 %");
    assert_eq!(temperature_label("").unwrap(), "Temp:  C");
    assert_eq!(temperature_label("NaN").unwrap(), "Temp: NaN C");
}

#[test]
fn a_readout_of_sixteen_bytes_is_the_longest() {
    assert_eq!(temperature_label("-12345.6").unwrap(), "Temp: -12345.6 C");
    assert_eq!(temperature_label("-123456.7"), Err(ErrorKind::FormatOverflow));
    assert_eq!(humidity_label("1234567.89").unwrap(), "RH: 1234567.89 %");
    assert_eq!(humidity_label("12345678.90"), Err(ErrorKind::FormatOverflow));
}

#[test]
fn a_readout_is_measured_in_bytes() {
    assert_eq!(compose_label("", "0123456789abcdef", "").unwrap(), "0123456789abcdef");
    assert_eq!(compose_label("", "0123456789abcdefg", ""), Err(ErrorKind::FormatOverflow));
    assert_eq!(compose_label("0123456789abcdefg", "", ""), Err(ErrorKind::FormatOverflow));
    assert_eq!(compose_label("", "", "0123456789abcdefg"), Err(ErrorKind::FormatOverflow));
    assert_eq!(compose_label("12345678", "\u{e9}\u{e9}\u{e9}", "ab").unwrap(), "12345678\u{e9}\u{e9}\u{e9}ab");
    assert_eq!(
        compose_label("12345678", "\u{e9}\u{e9}\u{e9}\u{e9}", "a"),
        Err(ErrorKind::FormatOverflow)
    );
    assert_eq!(compose_label("", "", "").unwrap(), "");
}

#[test]
fn palette_matches_the_named_colours() {
    assert_eq!(colour::BLACK, Rgb565::BLACK.into_storage());
    assert_eq!(colour::PANEL, Rgb565::new(3, 5, 3).into_storage());
    assert_eq!(colour::FOREST_GREEN, Rgb565::CSS_FOREST_GREEN.into_storage());
    assert_eq!(colour::ORANGE_RED, Rgb565::CSS_ORANGE_RED.into_storage());
    assert_eq!(colour::AQUAMARINE, Rgb565::CSS_AQUAMARINE.into_storage());
    assert_eq!(colour::DARK_GREEN, Rgb565::CSS_DARK_GREEN.into_storage());
    assert_eq!(colour::ORANGE, Rgb565::CSS_ORANGE.into_storage());
    assert_eq!(colour::AQUA, Rgb565::CSS_AQUA.into_storage());
}
