use pico_env_sensor::dashboard::Dashboard;
use pico_env_sensor::error::ErrorKind;
use pico_env_sensor::frame::DrawOp;
use pico_env_sensor::handoff::Handoff;
use pico_env_sensor::reading::{Quantity, Reading};
use pico_env_sensor::render::{RenderCommand, RenderEvent, RenderPhase, RenderTask};
use pico_env_sensor::sensor::{SensorCommand, SensorEvent, SensorPhase, SensorTask};

fn quantity(value: f32) -> Quantity {
    Quantity { whole: num_traits::NumCast::from(value), shown: format!("{:.1}", value) }
}

fn reading(co2: u16, temperature: f32, humidity: f32) -> Reading {
    Reading { co2, temperature: quantity(temperature), humidity: quantity(humidity) }
}

fn running_sensor() -> SensorTask {
    let (mut task, first) = SensorTask::start();
    assert_eq!(first, SensorCommand::Sleep { millis: 30 });
    assert_eq!(task.step(SensorEvent::Done), SensorCommand::WakeAndReinit);
    assert_eq!(task.step(SensorEvent::Done), SensorCommand::ReadSerial);
    assert_eq!(task.step(SensorEvent::Done), SensorCommand::StartPeriodic);
    assert_eq!(task.step(SensorEvent::Done), SensorCommand::Sleep { millis: 5000 });
    task
}

fn waiting_render() -> RenderTask {
    let (mut task, first) = RenderTask::start();
    assert_eq!(first, RenderCommand::StartDisplay);
    assert_eq!(task.step(RenderEvent::Done), RenderCommand::Wait);
    task
}

#[test]
fn two_readings_fill_the_co2_history_in_order() {
    let mut slot: Handoff<Reading> = Handoff::new();
    let mut dashboard = Dashboard::new();
    slot.publish(reading(400, 20.0, 40.0));
    let first = slot.take().unwrap();
    dashboard.ingest(&first);
    slot.publish(reading(420, 21.0, 41.0));
    let second = slot.take().unwrap();
    dashboard.ingest(&second);
    assert_eq!(dashboard.co2.samples(), vec![400, 420]);
    assert_eq!(dashboard.co2.min(), Some(400));
    assert_eq!(dashboard.co2.max(), Some(420));
    assert_eq!(dashboard.temperature.samples(), vec![20, 21]);
    assert_eq!(dashboard.humidity.samples(), vec![40, 41]);
}

#[test]
fn sixty_one_readings_evict_the_first() {
    let mut dashboard = Dashboard::new();
    let mut co2: u16 = 1000;
    while co2 < 1061 {
        dashboard.ingest(&reading(co2, 20.0, 40.0));
        co2 += 1;
    }
    let held = dashboard.co2.samples();
    assert_eq!(dashboard.co2.len(), 60);
    assert_eq!(held.len(), 60);
    assert_eq!(held[0], 1001);
    assert_eq!(held[59], 1060);
}

#[test]
fn sensor_failure_freezes_the_display() {
    let mut slot: Handoff<Reading> = Handoff::new();
    let mut sensor = running_sensor();
    let mut render = waiting_render();
    let mut shown: usize = 0;
    let mut round: u16 = 0;
    while round < 3 {
        assert_eq!(sensor.step(SensorEvent::Done), SensorCommand::Measure);
        let measured = reading(500 + round, 20.0, 40.0);
        match sensor.step(SensorEvent::Measured(measured.clone())) {
            SensorCommand::Publish(value) => {
                assert_eq!(value, measured);
                slot.publish(value);
            }
            other => panic!("unexpected command {:?}", other),
        }
        assert_eq!(sensor.step(SensorEvent::Done), SensorCommand::Sleep { millis: 5000 });
        match render.step(RenderEvent::Received(slot.take().unwrap())) {
            RenderCommand::Show(_) => shown += 1,
            other => panic!("unexpected command {:?}", other),
        }
        assert_eq!(render.step(RenderEvent::Done), RenderCommand::Wait);
        round += 1;
    }
    assert_eq!(shown, 3);
    assert_eq!(sensor.step(SensorEvent::Done), SensorCommand::Measure);
    let failure = sensor.step(SensorEvent::Failed { diagnostic: String::from("Crc") });
    assert_eq!(
        failure,
        SensorCommand::Halt(ErrorKind::SensorReadFailure { diagnostic: String::from("Crc") })
    );
    assert_eq!(sensor.phase(), SensorPhase::Halted);
    assert_eq!(sensor.step(SensorEvent::Done), SensorCommand::Idle);
    assert_eq!(sensor.step(SensorEvent::Measured(reading(1, 1.0, 1.0))), SensorCommand::Idle);
    assert_eq!(sensor.phase(), SensorPhase::Halted);
    assert!(!slot.is_pending());
    assert!(slot.take().is_none());
    assert_eq!(render.phase(), RenderPhase::Waiting);
    assert_eq!(render.dashboard().co2.samples(), vec![500, 501, 502]);
}

#[test]
fn only_the_latest_published_value_is_taken() {
    let mut slot: Handoff<u32> = Handoff::new();
    assert!(!slot.is_pending());
    assert_eq!(slot.take(), None);
    slot.publish(1);
    slot.publish(2);
    slot.publish(3);
    assert!(slot.is_pending());
    assert_eq!(slot.take(), Some(3));
    assert!(!slot.is_pending());
    assert_eq!(slot.take(), None);
    slot.publish(4);
    assert_eq!(slot.take(), Some(4));
}

#[test]
fn sensor_start_up_passes_over_a_missing_serial_number() {
    let (mut task, _) = SensorTask::start();
    assert_eq!(task.phase(), SensorPhase::PoweringUp);
    assert_eq!(task.step(SensorEvent::Done), SensorCommand::WakeAndReinit);
    assert_eq!(task.step(SensorEvent::Done), SensorCommand::ReadSerial);
    assert_eq!(
        task.step(SensorEvent::Failed { diagnostic: String::from("no answer") }),
        SensorCommand::StartPeriodic
    );
    assert_eq!(task.phase(), SensorPhase::Starting);
}

#[test]
fn sensor_halts_when_reinit_fails() {
    let (mut task, _) = SensorTask::start();
    assert_eq!(task.step(SensorEvent::Done), SensorCommand::WakeAndReinit);
    assert_eq!(
        task.step(SensorEvent::Failed { diagnostic: String::from("I2c") }),
        SensorCommand::Halt(ErrorKind::SensorReadFailure { diagnostic: String::from("I2c") })
    );
    assert_eq!(task.phase(), SensorPhase::Halted);
}

#[test]
fn sensor_halts_when_periodic_measurement_does_not_start() {
    let (mut task, _) = SensorTask::start();
    task.step(SensorEvent::Done);
    task.step(SensorEvent::Done);
    task.step(SensorEvent::Done);
    assert_eq!(task.phase(), SensorPhase::Starting);
    assert_eq!(
        task.step(SensorEvent::Failed { diagnostic: String::from("busy") }),
        SensorCommand::Halt(ErrorKind::SensorReadFailure { diagnostic: String::from("busy") })
    );
}

#[test]
fn sensor_ignores_an_event_it_does_not_await() {
    let mut task = running_sensor();
    assert_eq!(task.phase(), SensorPhase::Waiting);
    assert_eq!(task.step(SensorEvent::Measured(reading(1, 1.0, 1.0))), SensorCommand::Idle);
    assert_eq!(task.phase(), SensorPhase::Waiting);
    assert_eq!(task.step(SensorEvent::Done), SensorCommand::Measure);
    assert_eq!(task.step(SensorEvent::Done), SensorCommand::Idle);
    assert_eq!(task.phase(), SensorPhase::Measuring);
}

#[test]
fn render_halts_when_the_display_does_not_start() {
    let (mut task, _) = RenderTask::start();
    assert_eq!(task.phase(), RenderPhase::Starting);
    assert_eq!(task.step(RenderEvent::Failed), RenderCommand::Halt(ErrorKind::DisplayFailure));
    assert_eq!(task.phase(), RenderPhase::Halted);
    assert_eq!(task.step(RenderEvent::Received(reading(1, 1.0, 1.0))), RenderCommand::Idle);
    assert_eq!(task.dashboard().co2.len(), 0);
}

#[test]
fn render_halts_when_a_frame_is_rejected() {
    let mut task = waiting_render();
    assert!(matches!(
        task.step(RenderEvent::Received(reading(400, 20.0, 40.0))),
        RenderCommand::Show(_)
    ));
    assert_eq!(task.phase(), RenderPhase::Showing);
    assert_eq!(task.step(RenderEvent::Failed), RenderCommand::Halt(ErrorKind::DisplayFailure));
    assert_eq!(task.phase(), RenderPhase::Halted);
    assert_eq!(task.step(RenderEvent::Done), RenderCommand::Idle);
}

#[test]
fn render_halts_on_a_readout_that_does_not_fit() {
    let mut task = waiting_render();
    let command = task.step(RenderEvent::Received(reading(400, 123456789.0, 40.0)));
    assert_eq!(command, RenderCommand::Halt(ErrorKind::FormatOverflow));
    assert_eq!(task.phase(), RenderPhase::Halted);
    assert_eq!(task.dashboard().co2.len(), 0);
    assert_eq!(task.dashboard().temperature.len(), 0);
    assert_eq!(task.dashboard().humidity.len(), 0);
}

#[test]
fn render_ignores_a_reading_while_showing() {
    let mut task = waiting_render();
    task.step(RenderEvent::Received(reading(400, 20.0, 40.0)));
    assert_eq!(task.step(RenderEvent::Received(reading(500, 20.0, 40.0))), RenderCommand::Idle);
    assert_eq!(task.phase(), RenderPhase::Showing);
    assert_eq!(task.dashboard().co2.samples(), vec![400]);
}

#[test]
fn first_frame_has_readouts_and_no_graph() {
    let mut dashboard = Dashboard::new();
    let frame = dashboard.render(&reading(400, 20.04, 40.06)).unwrap();
    assert_eq!(
        frame,
        vec![
            DrawOp::Clear { colour: 0x0000 },
            DrawOp::Text { x: 5, y: 34, text: String::from("CO2: 400 ppm"), colour: 0x2444 },
            DrawOp::Text { x: 5, y: 68, text: String::from("Temp: 20.0 C"), colour: 0xFA20 },
            DrawOp::Text { x: 5, y: 102, text: String::from("RH: 40.1 %"), colour: 0x7FFA },
        ]
    );
}

#[test]
fn second_frame_draws_the_three_graphs_before_the_readouts() {
    let mut dashboard = Dashboard::new();
    dashboard.render(&reading(400, 20.0, 45.0)).unwrap();
    let frame = dashboard.render(&reading(420, 21.0, 40.0)).unwrap();
    assert_eq!(
        frame,
        vec![
            DrawOp::Clear { colour: 0x0000 },
            DrawOp::FillRect { x: 4, y: 4, width: 120, height: 30, colour: 0x18A3 },
            DrawOp::Line { x0: 123, y0: 4, x1: 121, y1: 34, colour: 0x0320 },
            DrawOp::FillRect { x: 4, y: 38, width: 120, height: 30, colour: 0x18A3 },
            DrawOp::Line { x0: 123, y0: 38, x1: 121, y1: 68, colour: 0xFD20 },
            DrawOp::FillRect { x: 4, y: 72, width: 120, height: 30, colour: 0x18A3 },
            DrawOp::Line { x0: 123, y0: 102, x1: 121, y1: 72, colour: 0x07FF },
            DrawOp::Text { x: 5, y: 34, text: String::from("CO2: 420 ppm"), colour: 0x2444 },
            DrawOp::Text { x: 5, y: 68, text: String::from("Temp: 21.0 C"), colour: 0xFA20 },
            DrawOp::Text { x: 5, y: 102, text: String::from("RH: 40.0 %"), colour: 0x7FFA },
        ]
    );
}

#[test]
fn an_unrepresentable_measurement_plots_as_zero() {
    let mut dashboard = Dashboard::new();
    dashboard.ingest(&reading(65535, f32::NAN, 3.0e9));
    dashboard.ingest(&reading(0, -7.9, -3.0e9));
    assert_eq!(dashboard.co2.samples(), vec![65535, 0]);
    assert_eq!(dashboard.temperature.samples(), vec![0, -7]);
    assert_eq!(dashboard.humidity.samples(), vec![0, 0]);
    let r = reading(65535, f32::NAN, 1.5);
    assert_eq!(r.co2_sample(), 65535);
    assert_eq!(r.temperature_sample(), 0);
    assert_eq!(r.humidity_sample(), 1);
}
