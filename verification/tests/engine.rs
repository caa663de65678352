use ws2812_dma::color::Color;
use ws2812_dma::fade::{fade_color, next_step};
use ws2812_dma::led_matrix_8x8::LedMatrix8x8;
use ws2812_dma::ws2812::encoder::decode;
use ws2812_dma::ws2812::timing::{ConfigError, Timing};
use ws2812_dma::ws2812::{
    DisplayBuffer, DmaEvent, DmaSetup, Half, InitBuffer, Phase, PwmPatternDB, Request, Strategy,
    TimerSetup, Transfer, COMPARE_ADDRESS, DISPLAY_LEN, NUM_LEDS, NUM_RESET,
};

fn one_shot() -> PwmPatternDB {
    PwmPatternDB::new(64_000_000, Strategy::OneShot).unwrap()
}

fn streaming() -> PwmPatternDB {
    PwmPatternDB::new(64_000_000, Strategy::Streaming).unwrap()
}

fn half(engine: &PwmPatternDB, h: Half) -> Option<Color> {
    let t = engine.timing();
    let led = match h {
        Half::Lower => 0,
        Half::Upper => 1,
    };
    decode(engine.stream(), led, t.duty_zero, t.duty_one)
}

fn half_is_zero(engine: &PwmPatternDB, h: Half) -> bool {
    let from = match h {
        Half::Lower => 0,
        Half::Upper => 24,
    };
    engine.stream()[from..from + 24].iter().all(|&s| s == 0)
}

#[test]
fn display_buffer_starts_as_zeros() {
    let buffer: DisplayBuffer = <DisplayBuffer as InitBuffer>::new();
    assert_eq!(buffer.len(), 24 * 64 + 50);
    assert_eq!(DISPLAY_LEN, 1586);
    assert!(buffer.iter().all(|&s| s == 0));
}

#[test]
fn new_engine_is_idle_with_resolved_timing() {
    let engine = one_shot();
    assert_eq!(engine.timing(), Timing { psc: 0, period: 79, duty_zero: 22, duty_one: 37 });
    assert_eq!(engine.strategy(), Strategy::OneShot);
    assert_eq!(engine.phase(), Phase::Idle);
    assert_eq!(engine.active_half(), Half::Lower);
    assert_eq!(engine.overruns(), 0);
    assert_eq!(engine.stream(), &[0u16; 48]);
    assert!(!engine.is_active());
}

#[test]
fn new_engine_fails_on_a_clock_that_is_too_slow() {
    assert_eq!(PwmPatternDB::new(1, Strategy::OneShot).err(), Some(ConfigError::NoValidPeriod));
    assert_eq!(
        PwmPatternDB::new(799_999, Strategy::Streaming).err(),
        Some(ConfigError::NoValidPeriod)
    );
    assert_eq!(
        PwmPatternDB::new(800_000, Strategy::OneShot).err(),
        Some(ConfigError::DutyOutOfRange)
    );
    assert_eq!(
        PwmPatternDB::new(4_799_999, Strategy::OneShot).err(),
        Some(ConfigError::DutyOutOfRange)
    );
    assert!(PwmPatternDB::new(4_800_000, Strategy::OneShot).is_ok());
}

#[test]
fn timer_setup_holds_the_register_values() {
    let engine = one_shot();
    assert_eq!(
        engine.timer_setup(),
        TimerSetup {
            prescaler: 0,
            auto_reload: 79,
            compare: 39,
            output_mode: 6,
            preload: true,
            update_interrupt: true,
            compare_interrupt: true,
            update_dma_request: true,
        }
    );
}

#[test]
fn dma_setup_depends_on_the_strategy() {
    assert_eq!(
        one_shot().dma_setup(),
        DmaSetup {
            peripheral_address: 0x4000_0034,
            sample_bits: 16,
            memory_increment: true,
            circular: false,
            half_transfer_interrupt: false,
            transfer_complete_interrupt: true,
        }
    );
    assert_eq!(
        streaming().dma_setup(),
        DmaSetup {
            peripheral_address: COMPARE_ADDRESS,
            sample_bits: 16,
            memory_increment: true,
            circular: true,
            half_transfer_interrupt: true,
            transfer_complete_interrupt: true,
        }
    );
}

#[test]
fn set_color_pattern_uses_the_engine_duties() {
    let engine = one_shot();
    let mut buffer = <DisplayBuffer as InitBuffer>::new();
    engine.set_color_pattern(Color::new(0x80, 0x01, 0xFF), 2, &mut buffer);
    let z = 22u16;
    let o = 37u16;
    let expected = [
        z, z, z, z, z, z, z, o, // green 0x01
        o, z, z, z, z, z, z, z, // red 0x80
        o, o, o, o, o, o, o, o, // blue 0xFF
    ];
    assert_eq!(&buffer[48..72], &expected[..]);
    assert!(buffer[..48].iter().all(|&s| s == 0));
    assert!(buffer[72..].iter().all(|&s| s == 0));
}

#[test]
fn three_leds_decode_and_the_rest_is_zero() {
    let engine = one_shot();
    let t = engine.timing();
    let mut buffer = <DisplayBuffer as InitBuffer>::new();
    engine.set_color_pattern(Color::red(), 0, &mut buffer);
    engine.set_color_pattern(Color::green(), 1, &mut buffer);
    engine.set_color_pattern(Color::blue(), 2, &mut buffer);
    assert_eq!(decode(&buffer, 0, t.duty_zero, t.duty_one), Some(Color::red()));
    assert_eq!(decode(&buffer, 1, t.duty_zero, t.duty_one), Some(Color::green()));
    assert_eq!(decode(&buffer, 2, t.duty_zero, t.duty_one), Some(Color::blue()));
    assert!(buffer[72..].iter().all(|&s| s == 0));
}

#[test]
fn encode_frame_writes_every_led_and_the_reset() {
    let engine = one_shot();
    let t = engine.timing();
    let mut frame = LedMatrix8x8::new(Color::led_off());
    for k in 0..64usize {
        frame.data[k / 8][k % 8] = Color::new(k as u8, 255 - k as u8, (3 * k) as u8);
    }
    let mut buffer = [0xFFFFu16; DISPLAY_LEN];
    engine.encode_frame(&frame, &mut buffer);
    for k in 0..NUM_LEDS {
        assert_eq!(
            decode(&buffer, k, t.duty_zero, t.duty_one),
            Some(Color::new(k as u8, 255 - k as u8, (3 * k) as u8))
        );
    }
    assert!(buffer[24 * NUM_LEDS..].iter().all(|&s| s == 0));
    assert_eq!(buffer[24 * NUM_LEDS..].len(), NUM_RESET);
}

#[test]
fn one_shot_frame_runs_from_start_to_stop() {
    let mut engine = one_shot();
    let mut buffer = <DisplayBuffer as InitBuffer>::new();
    engine.set_color_pattern(Color::white(), 0, &mut buffer);
    let before = buffer;
    let transfer = engine.start(&mut buffer);
    assert_eq!(transfer, Some(Transfer { length: 1586, circular: false, first_compare: 0 }));
    assert_eq!(buffer, before);
    assert_eq!(engine.phase(), Phase::Transmitting);
    assert!(engine.is_active());
    assert!(!engine.stop());
    assert_eq!(engine.phase(), Phase::Transmitting);
    assert_eq!(engine.on_dma_event(DmaEvent::HalfTransfer), Request::Nothing);
    assert_eq!(engine.phase(), Phase::Transmitting);
    assert_eq!(engine.on_dma_event(DmaEvent::TransferComplete), Request::Stop);
    assert_eq!(engine.phase(), Phase::Draining);
    assert!(!engine.is_active());
    assert!(engine.stop());
    assert_eq!(engine.phase(), Phase::Idle);
    assert_eq!(engine.overruns(), 0);
    assert!(engine.start(&mut buffer).is_some());
}

#[test]
fn start_is_ignored_unless_idle() {
    let mut engine = one_shot();
    let mut buffer = <DisplayBuffer as InitBuffer>::new();
    assert!(engine.start(&mut buffer).is_some());
    assert_eq!(engine.start(&mut buffer), None);
    assert_eq!(engine.phase(), Phase::Transmitting);
    assert_eq!(engine.start_stream(Color::red()), None);
    assert_eq!(engine.phase(), Phase::Transmitting);
}

#[test]
fn start_of_the_other_strategy_is_ignored() {
    let mut engine = one_shot();
    assert_eq!(engine.start_stream(Color::red()), None);
    assert_eq!(engine.phase(), Phase::Idle);
    assert_eq!(engine.stream(), &[0u16; 48]);
    let mut engine = streaming();
    let mut buffer = <DisplayBuffer as InitBuffer>::new();
    assert_eq!(engine.start(&mut buffer), None);
    assert_eq!(engine.phase(), Phase::Idle);
}

#[test]
fn stop_and_refill_are_ignored_while_idle() {
    let mut engine = streaming();
    assert!(!engine.stop());
    assert!(!engine.set_next_buffer(Color::red()));
    assert!(!engine.set_reset_pattern());
    assert_eq!(engine.on_dma_event(DmaEvent::HalfTransfer), Request::Nothing);
    assert_eq!(engine.phase(), Phase::Idle);
    assert_eq!(engine.stream(), &[0u16; 48]);
    assert_eq!(engine.overruns(), 0);
}

#[test]
fn stream_start_refill_and_reset() {
    let mut engine = streaming();
    let transfer = engine.start_stream(Color::red());
    assert_eq!(transfer, Some(Transfer { length: 48, circular: true, first_compare: 0 }));
    assert_eq!(engine.phase(), Phase::Armed);
    assert_eq!(engine.active_half(), Half::Lower);
    assert_eq!(half(&engine, Half::Lower), Some(Color::red()));
    assert!(half_is_zero(&engine, Half::Upper));

    assert!(engine.set_next_buffer(Color::green()));
    assert_eq!(engine.active_half(), Half::Upper);
    assert_eq!(half(&engine, Half::Upper), Some(Color::green()));
    assert_eq!(half(&engine, Half::Lower), Some(Color::red()));
    assert_eq!(engine.phase(), Phase::Transmitting);

    assert_eq!(engine.on_dma_event(DmaEvent::HalfTransfer), Request::Refill);
    assert_eq!(engine.phase(), Phase::Refilling);
    assert!(engine.set_reset_pattern());
    assert_eq!(engine.active_half(), Half::Lower);
    assert!(half_is_zero(&engine, Half::Lower));
    assert_eq!(half(&engine, Half::Upper), Some(Color::green()));
    assert_eq!(engine.phase(), Phase::Draining);
}

#[test]
fn refill_is_accepted_once_per_interrupt() {
    let mut engine = streaming();
    engine.start_stream(Color::red());
    assert!(engine.set_next_buffer(Color::green()));
    let before = *engine.stream();
    assert!(!engine.set_next_buffer(Color::blue()));
    assert!(!engine.set_reset_pattern());
    assert_eq!(engine.stream(), &before);
    assert_eq!(engine.active_half(), Half::Upper);
    assert_eq!(engine.phase(), Phase::Transmitting);
    assert_eq!(engine.on_dma_event(DmaEvent::HalfTransfer), Request::Refill);
    assert!(engine.set_next_buffer(Color::blue()));
    assert_eq!(engine.active_half(), Half::Lower);
    assert_eq!(half(&engine, Half::Lower), Some(Color::blue()));
    assert_eq!(half(&engine, Half::Upper), Some(Color::green()));
    assert_eq!(engine.on_dma_event(DmaEvent::TransferComplete), Request::Refill);
    assert!(engine.set_next_buffer(Color::white()));
    assert_eq!(engine.active_half(), Half::Upper);
    assert_eq!(half(&engine, Half::Upper), Some(Color::white()));
    assert_eq!(engine.overruns(), 0);
}

#[test]
fn late_refill_is_counted() {
    let mut engine = streaming();
    engine.start_stream(Color::red());
    assert_eq!(engine.on_dma_event(DmaEvent::HalfTransfer), Request::Refill);
    assert_eq!(engine.overruns(), 1);
    assert_eq!(engine.phase(), Phase::Armed);
    assert!(engine.set_next_buffer(Color::green()));
    assert_eq!(engine.on_dma_event(DmaEvent::TransferComplete), Request::Refill);
    assert_eq!(engine.overruns(), 1);
    assert_eq!(engine.on_dma_event(DmaEvent::HalfTransfer), Request::Refill);
    assert_eq!(engine.on_dma_event(DmaEvent::TransferComplete), Request::Refill);
    assert_eq!(engine.overruns(), 3);
    assert_eq!(engine.phase(), Phase::Refilling);
    assert_eq!(half(&engine, Half::Upper), Some(Color::green()));
}

#[test]
fn stream_drains_in_four_interrupts() {
    let mut engine = streaming();
    engine.start_stream(Color::red());
    assert!(engine.set_next_buffer(Color::green()));
    assert_eq!(engine.on_dma_event(DmaEvent::HalfTransfer), Request::Refill);
    assert!(engine.set_reset_pattern());
    assert!(engine.is_active());
    assert!(!engine.stop());
    assert_eq!(engine.on_dma_event(DmaEvent::TransferComplete), Request::Nothing);
    assert_eq!(engine.stream(), &[0u16; 48]);
    assert_eq!(engine.active_half(), Half::Upper);
    assert_eq!(engine.on_dma_event(DmaEvent::HalfTransfer), Request::Nothing);
    assert_eq!(engine.on_dma_event(DmaEvent::TransferComplete), Request::Nothing);
    assert!(engine.is_active());
    assert!(!engine.stop());
    assert_eq!(engine.phase(), Phase::Draining);
    assert_eq!(engine.on_dma_event(DmaEvent::HalfTransfer), Request::Stop);
    assert!(!engine.is_active());
    assert_eq!(engine.on_dma_event(DmaEvent::TransferComplete), Request::Stop);
    assert!(engine.stop());
    assert_eq!(engine.phase(), Phase::Idle);
    assert_eq!(engine.overruns(), 0);
    assert!(engine.start_stream(Color::blue()).is_some());
    assert_eq!(engine.active_half(), Half::Lower);
    assert_eq!(half(&engine, Half::Lower), Some(Color::blue()));
}

#[test]
fn stream_of_one_led_can_be_reset_at_once() {
    let mut engine = streaming();
    engine.start_stream(Color::white());
    assert!(engine.set_reset_pattern());
    assert_eq!(engine.phase(), Phase::Draining);
    assert_eq!(half(&engine, Half::Lower), Some(Color::white()));
    assert!(half_is_zero(&engine, Half::Upper));
    assert!(!engine.set_next_buffer(Color::red()));
}

#[test]
fn compare_interrupt_is_one_without_pending_update() {
    let engine = one_shot();
    assert!(engine.is_cmp_irq(false));
    assert!(!engine.is_cmp_irq(true));
}

#[test]
fn halves_flip() {
    assert_eq!(Half::Lower.flipped(), Half::Upper);
    assert_eq!(Half::Upper.flipped(), Half::Lower);
    assert_eq!(Half::Lower.led_index(), 0);
    assert_eq!(Half::Upper.led_index(), 1);
}

#[test]
fn fade_runs_from_blue_to_red_and_starts_again() {
    assert_eq!(fade_color(0), Color::new(0, 0, 64));
    assert_eq!(fade_color(10), Color::new(10, 0, 54));
    assert_eq!(fade_color(64), Color::new(64, 0, 0));
    assert_eq!(next_step(0), 1);
    assert_eq!(next_step(63), 64);
    assert_eq!(next_step(64), 0);
    assert_eq!(next_step(1000), 0);
}

#[test]
fn last_led_leaves_the_reset_in_place() {
    let engine = one_shot();
    let t = engine.timing();
    let mut buffer = <DisplayBuffer as InitBuffer>::new();
    engine.set_color_pattern(Color::white(), NUM_LEDS - 1, &mut buffer);
    assert_eq!(decode(&buffer, NUM_LEDS - 1, t.duty_zero, t.duty_one), Some(Color::white()));
    assert!(buffer[..24 * (NUM_LEDS - 1)].iter().all(|&s| s == 0));
    assert_eq!(&buffer[24 * NUM_LEDS..], &[0u16; NUM_RESET][..]);
}

#[test]
fn named_colours_go_out_green_first() {
    let engine = one_shot();
    let mut buffer = <DisplayBuffer as InitBuffer>::new();
    engine.set_color_pattern(Color::green(), 0, &mut buffer);
    engine.set_color_pattern(Color::red(), 1, &mut buffer);
    engine.set_color_pattern(Color::blue(), 2, &mut buffer);
    for led in 0..3 {
        for channel in 0..3 {
            let expected = if led == channel { 37 } else { 22 };
            for bit in 0..8 {
                assert_eq!(buffer[24 * led + 8 * channel + bit], expected);
            }
        }
    }
}
