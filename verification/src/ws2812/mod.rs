//! The WS2812 side of the driver: timer values, duty-cycle encoding and
//! the transmission engine.
//!
//! The engine decides; the hardware is driven elsewhere. Each operation
//! takes the engine from one phase to the next and says what the caller
//! has to do to the timer and the DMA channel.

pub mod encoder;
pub mod timing;

use crate::color::Color;
use crate::led_matrix_8x8::LedMatrix8x8;
use crate::ws2812::encoder::{
    decoded, encode, encode_reset, frame_samples, lemma_decode_encode, pattern, with_pattern,
    with_reset, SAMPLES_PER_LED,
};
use crate::ws2812::timing::{resolved, ConfigError, Timing};
use vstd::prelude::*;

verus! {

/// LEDs in a full frame.
pub const NUM_LEDS: usize = 64;

/// Zero samples after the last LED of a full frame: the line stays low
/// for 50 bit times, which resets the LEDs.
pub const NUM_RESET: usize = 50;

/// Samples in a full frame: 24 for each LED, then the reset.
pub const DISPLAY_LEN: usize = 24 * NUM_LEDS + NUM_RESET;

/// Samples in the streaming buffer: two halves of one LED each.
pub const STREAM_LEN: usize = 48;

/// The bit frequency of the LEDs, in hertz: one bit lasts 1.25 us.
pub const BIT_FREQUENCY: u32 = 800_000;

/// The address of the timer's compare register, which the DMA channel
/// writes.
pub const COMPARE_ADDRESS: u32 = 0x4000_0034;

/// DMA interrupts that the engine counts after the reset pattern was
/// queued, before the stream may stop: one for the half that was still
/// being read, three for 72 zero samples.
pub const DRAIN_EVENTS: u8 = 4;

/// The samples of a full frame, read by the DMA channel in one go.
pub type DisplayBuffer = [u16; DISPLAY_LEN];

/// Gives a buffer its first value.
pub trait InitBuffer {
    /// A buffer of zeros.
    fn new() -> (buffer: DisplayBuffer)
        ensures
            buffer@ == Seq::new(DISPLAY_LEN as nat, |i: int| 0u16),
    ;
}

impl InitBuffer for DisplayBuffer {
    fn new() -> (buffer: DisplayBuffer) {
        let buffer: DisplayBuffer = [0;DISPLAY_LEN];
        assert(buffer@ =~= Seq::new(DISPLAY_LEN as nat, |i: int| 0u16));
        buffer
    }
}

/// How the samples reach the LEDs.
#[derive(Copy, Clone, Debug, PartialEq, Eq, Structural)]
pub enum Strategy {
    /// A whole frame is encoded into a `DisplayBuffer` and sent in one
    /// transfer.
    OneShot,
    /// The engine's own buffer of two halves is read round and round,
    /// and each half is written anew while the other is read.
    Streaming,
}

/// Where the engine stands.
#[derive(Copy, Clone, Debug, PartialEq, Eq, Structural)]
pub enum Phase {
    /// Nothing is being sent.
    Idle,
    /// A stream was started and its second half waits for its first
    /// colour.
    Armed,
    /// The hardware sends, and nothing is asked of the caller.
    Transmitting,
    /// The hardware has left a half behind, which waits to be written.
    Refilling,
    /// Only the reset is left to send, or has been sent.
    Draining,
}

/// One half of the streaming buffer.
#[derive(Copy, Clone, Debug, PartialEq, Eq, Structural)]
pub enum Half {
    /// Samples 0 to 23.
    Lower,
    /// Samples 24 to 47.
    Upper,
}

/// An interrupt of the DMA channel.
#[derive(Copy, Clone, Debug, PartialEq, Eq, Structural)]
pub enum DmaEvent {
    /// The channel has read the first half of its buffer.
    HalfTransfer,
    /// The channel has read its buffer to the end.
    TransferComplete,
}

/// What the caller has to do after a DMA interrupt was taken in.
#[derive(Copy, Clone, Debug, PartialEq, Eq, Structural)]
pub enum Request {
    /// Nothing.
    Nothing,
    /// Write the free half now, with `set_next_buffer` or
    /// `set_reset_pattern`.
    Refill,
    /// The reset has been sent: call `stop`.
    Stop,
}

/// A transfer that the caller has to set going: give the DMA channel the
/// length, point it at the buffer, load the compare value, enable the
/// channel, raise an update event, and enable the counter last.
#[derive(Copy, Clone, Debug, PartialEq, Eq, Structural)]
pub struct Transfer {
    /// Samples that the channel reads.
    pub length: u32,
    /// Whether the channel starts again at the end of the buffer.
    pub circular: bool,
    /// The compare value in force until the first sample arrives.
    pub first_compare: u16,
}

/// What is written to the timer once, before anything is sent.
#[derive(Copy, Clone, Debug, PartialEq, Eq, Structural)]
pub struct TimerSetup {
    /// The prescaler register.
    pub prescaler: u16,
    /// The auto-reload register: the period.
    pub auto_reload: u16,
    /// The compare register: half the period.
    pub compare: u16,
    /// The output compare mode: 6 is PWM mode 1, where the output is
    /// high as long as the counter is below the compare value.
    pub output_mode: u8,
    /// Whether the compare register is buffered until the next update.
    pub preload: bool,
    /// Whether the update interrupt is enabled.
    pub update_interrupt: bool,
    /// Whether the compare interrupt is enabled.
    pub compare_interrupt: bool,
    /// Whether an update asks the DMA channel for the next sample.
    pub update_dma_request: bool,
}

/// What is written to the DMA channel once, before anything is sent.
#[derive(Copy, Clone, Debug, PartialEq, Eq, Structural)]
pub struct DmaSetup {
    /// The address that every sample is written to.
    pub peripheral_address: u32,
    /// The width of a sample in bits, in memory and at the timer.
    pub sample_bits: u8,
    /// Whether the memory address moves on after each sample.
    pub memory_increment: bool,
    /// Whether the channel starts again at the end of the buffer.
    pub circular: bool,
    /// Whether the half-transfer interrupt is enabled.
    pub half_transfer_interrupt: bool,
    /// Whether the transfer-complete interrupt is enabled.
    pub transfer_complete_interrupt: bool,
}

impl Half {
    /// The other half.
    pub open spec fn other(self) -> Half {
        match self {
            Half::Lower => Half::Upper,
            Half::Upper => Half::Lower,
        }
    }

    /// The place of the half in the buffer, counted in LEDs.
    pub open spec fn index(self) -> int {
        match self {
            Half::Lower => 0,
            Half::Upper => 1,
        }
    }

    /// The other half.
    pub fn flipped(self) -> (h: Half)
        ensures
            h == self.other(),
    {
        match self {
            Half::Lower => Half::Upper,
            Half::Upper => Half::Lower,
        }
    }

    /// The place of the half in the buffer, counted in LEDs.
    pub fn led_index(self) -> (i: usize)
        ensures
            i == self.index(),
    {
        match self {
            Half::Lower => 0,
            Half::Upper => 1,
        }
    }
}

/// The engine as a value: what its contracts speak of.
pub struct EngineState {
    /// The timer values.
    pub timing: Timing,
    /// The strategy that the engine was made for.
    pub strategy: Strategy,
    /// The phase.
    pub phase: Phase,
    /// The half of the streaming buffer that was written last: the one
    /// that the hardware reads, or reads next.
    pub active: Half,
    /// The 48 samples of the streaming buffer.
    pub stream: Seq<u16>,
    /// DMA interrupts still to come before the reset has been sent.
    pub reset_pending: int,
    /// Refills that came too late.
    pub overruns: int,
}

/// The samples of one half of a streaming buffer.
pub open spec fn half_of(stream: Seq<u16>, half: Half) -> Seq<u16> {
    stream.subrange(24 * half.index(), 24 * half.index() + 24)
}

/// Twenty-four zeros: a half that holds the line low.
pub open spec fn reset_half() -> Seq<u16> {
    Seq::new(24, |i: int| 0u16)
}

impl EngineState {
    /// The invariant of the engine: ordered compare values, a buffer of
    /// 48 samples, a drain count only while draining, and only the
    /// phases that the strategy has.
    pub open spec fn wf(self) -> bool {
        &&& self.timing.wf()
        &&& self.stream.len() == 48
        &&& 0 <= self.reset_pending <= DRAIN_EVENTS
        &&& 0 <= self.overruns <= u32::MAX
        &&& self.phase != Phase::Draining ==> self.reset_pending == 0
        &&& self.strategy == Strategy::OneShot ==> self.reset_pending == 0 && (self.phase
            == Phase::Idle || self.phase == Phase::Transmitting || self.phase == Phase::Draining)
    }

    /// A new engine: idle, with a buffer of zeros.
    pub open spec fn idle(timing: Timing, strategy: Strategy) -> EngineState {
        EngineState {
            timing,
            strategy,
            phase: Phase::Idle,
            active: Half::Lower,
            stream: Seq::new(48, |i: int| 0u16),
            reset_pending: 0,
            overruns: 0,
        }
    }

    /// The 24 samples of a colour with this engine's compare values.
    pub open spec fn samples_of(self, color: Color) -> Seq<u16> {
        pattern(color, self.timing.duty_zero, self.timing.duty_one)
    }

    /// Whether a half is waiting to be written.
    pub open spec fn refill_due(self) -> bool {
        self.strategy == Strategy::Streaming && (self.phase == Phase::Armed || self.phase
            == Phase::Refilling)
    }

    /// Whether the reset has been sent, so that the engine may stop.
    pub open spec fn drained(self) -> bool {
        self.phase == Phase::Draining && self.reset_pending == 0
    }

    /// Whether the hardware is still sending.
    pub open spec fn sending(self) -> bool {
        self.phase != Phase::Idle && !self.drained()
    }

    /// Whether a frame can be started.
    pub open spec fn can_start(self, strategy: Strategy) -> bool {
        self.phase == Phase::Idle && self.strategy == strategy
    }

    /// After a frame was started: the hardware sends.
    pub open spec fn frame_started(self) -> EngineState {
        EngineState { phase: Phase::Transmitting, ..self }
    }

    /// After a stream was started: the colour in the lower half, which
    /// is read first, and zeros in the upper half.
    pub open spec fn stream_started(self, first: Color) -> EngineState {
        EngineState {
            phase: Phase::Armed,
            active: Half::Lower,
            stream: self.samples_of(first) + reset_half(),
            ..self
        }
    }

    /// After a colour was written to the free half.
    pub open spec fn refilled(self, color: Color) -> EngineState {
        EngineState {
            phase: Phase::Transmitting,
            active: self.active.other(),
            stream: with_pattern(self.stream, self.active.other().index(), self.samples_of(color)),
            ..self
        }
    }

    /// The buffer with the free half set to zero.
    pub open spec fn stream_with_reset(self) -> Seq<u16> {
        with_reset(
            self.stream,
            24 * self.active.other().index(),
            24 * self.active.other().index() + 24,
        )
    }

    /// After the reset was written to the free half.
    pub open spec fn reset_queued(self) -> EngineState {
        EngineState {
            phase: Phase::Draining,
            active: self.active.other(),
            stream: self.stream_with_reset(),
            reset_pending: DRAIN_EVENTS as int,
            ..self
        }
    }

    /// After a DMA interrupt.
    ///
    /// One-shot: the end of the transfer ends the frame, reset
    /// included. Streaming: a half has been read. While sending, it now
    /// waits to be written; where the one before still waits, a refill
    /// came too late and is counted; while draining, the half is set to
    /// zero at once and the count of interrupts to come goes down.
    pub open spec fn after_event(self, event: DmaEvent) -> EngineState {
        match self.strategy {
            Strategy::OneShot => {
                if self.phase == Phase::Transmitting && event == DmaEvent::TransferComplete {
                    EngineState { phase: Phase::Draining, ..self }
                } else {
                    self
                }
            },
            Strategy::Streaming => {
                match self.phase {
                    Phase::Idle => self,
                    Phase::Transmitting => EngineState { phase: Phase::Refilling, ..self },
                    Phase::Armed | Phase::Refilling => EngineState {
                        overruns: if self.overruns < u32::MAX {
                            self.overruns + 1
                        } else {
                            self.overruns
                        },
                        ..self
                    },
                    Phase::Draining => {
                        if self.reset_pending > 0 {
                            EngineState {
                                active: self.active.other(),
                                stream: self.stream_with_reset(),
                                reset_pending: self.reset_pending - 1,
                                ..self
                            }
                        } else {
                            self
                        }
                    },
                }
            },
        }
    }

    /// What is asked of the caller in this state, after an interrupt.
    pub open spec fn request(self) -> Request {
        if self.refill_due() {
            Request::Refill
        } else if self.drained() {
            Request::Stop
        } else {
            Request::Nothing
        }
    }

    /// After a stop that was accepted.
    pub open spec fn stopped(self) -> EngineState {
        EngineState { phase: Phase::Idle, reset_pending: 0, ..self }
    }
}

/// The transmission engine: the timer values, the phase, and the
/// streaming buffer with the mark of its active half.
pub struct PwmPatternDB {
    timing: Timing,
    strategy: Strategy,
    phase: Phase,
    active: Half,
    stream: [u16; STREAM_LEN],
    reset_pending: u8,
    overruns: u32,
}

impl View for PwmPatternDB {
    type V = EngineState;

    closed spec fn view(&self) -> EngineState {
        EngineState {
            timing: self.timing,
            strategy: self.strategy,
            phase: self.phase,
            active: self.active,
            stream: self.stream@,
            reset_pending: self.reset_pending as int,
            overruns: self.overruns as int,
        }
    }
}

impl PwmPatternDB {
    #[verifier::type_invariant]
    closed spec fn inv(self) -> bool {
        self@.wf()
    }

    /// An idle engine for a timer clock in hertz, with the timer values
    /// for 800 kHz. There are none where the clock is below 4.8 MHz: it
    /// then gives fewer than six ticks per bit, and below 800 kHz not
    /// even one.
    pub fn new(clock_hz: u32, strategy: Strategy) -> (r: Result<PwmPatternDB, ConfigError>)
        ensures
            r is Ok <==> clock_hz >= 4_800_000,
            (r matches Err(ConfigError::NoValidPeriod)) <==> clock_hz < BIT_FREQUENCY,
            (r matches Err(ConfigError::DutyOutOfRange)) <==> BIT_FREQUENCY <= clock_hz
                < 4_800_000,
            r matches Ok(engine) ==> engine@.wf() && (resolved(clock_hz, BIT_FREQUENCY) matches Ok(
                timing,
            ) && engine@ == EngineState::idle(timing, strategy)),
            r matches Err(e) ==> (resolved(clock_hz, BIT_FREQUENCY) matches Err(cause) && cause
                == e),
    {
        proof {
            crate::ws2812::timing::lemma_resolved_from_six_ticks(clock_hz, BIT_FREQUENCY);
        }
        match Timing::resolve(clock_hz, BIT_FREQUENCY) {
            Ok(timing) => {
                let engine = PwmPatternDB {
                    timing,
                    strategy,
                    phase: Phase::Idle,
                    active: Half::Lower,
                    stream: [0;STREAM_LEN],
                    reset_pending: 0,
                    overruns: 0,
                };
                assert(engine@.stream =~= Seq::new(48, |i: int| 0u16));
                Ok(engine)
            },
            Err(e) => Err(e),
        }
    }

    /// The timer values.
    pub fn timing(&self) -> (t: Timing)
        ensures
            t == self@.timing,
    {
        self.timing
    }

    /// The strategy.
    pub fn strategy(&self) -> (s: Strategy)
        ensures
            s == self@.strategy,
    {
        self.strategy
    }

    /// The phase.
    pub fn phase(&self) -> (p: Phase)
        ensures
            p == self@.phase,
    {
        self.phase
    }

    /// The half of the streaming buffer that was written last.
    pub fn active_half(&self) -> (h: Half)
        ensures
            h == self@.active,
    {
        self.active
    }

    /// Refills that came too late, counted up to the largest `u32`.
    pub fn overruns(&self) -> (n: u32)
        ensures
            n == self@.overruns,
    {
        self.overruns
    }

    /// The streaming buffer, for the DMA channel to read.
    pub fn stream(&self) -> (samples: &[u16; STREAM_LEN])
        ensures
            samples@ == self@.stream,
    {
        &self.stream
    }

    /// What to write to the timer once: the prescaler and the period,
    /// half the period as the first compare value, PWM mode 1 with a
    /// buffered compare register, and the update and compare interrupts
    /// and the DMA request on update enabled.
    pub fn timer_setup(&self) -> (setup: TimerSetup)
        ensures
            setup == (TimerSetup {
                prescaler: self@.timing.psc,
                auto_reload: self@.timing.period,
                compare: (self@.timing.period / 2) as u16,
                output_mode: 6,
                preload: true,
                update_interrupt: true,
                compare_interrupt: true,
                update_dma_request: true,
            }),
    {
        TimerSetup {
            prescaler: self.timing.psc,
            auto_reload: self.timing.period,
            compare: self.timing.period / 2,
            output_mode: 0b110,
            preload: true,
            update_interrupt: true,
            compare_interrupt: true,
            update_dma_request: true,
        }
    }

    /// What to write to the DMA channel once: 16-bit samples from
    /// memory, one after the other, to the compare register, with the
    /// transfer-complete interrupt; and, for streaming only, round and
    /// round with the half-transfer interrupt.
    pub fn dma_setup(&self) -> (setup: DmaSetup)
        ensures
            setup == (DmaSetup {
                peripheral_address: COMPARE_ADDRESS,
                sample_bits: 16,
                memory_increment: true,
                circular: self@.strategy == Strategy::Streaming,
                half_transfer_interrupt: self@.strategy == Strategy::Streaming,
                transfer_complete_interrupt: true,
            }),
    {
        let streaming = match self.strategy {
            Strategy::OneShot => false,
            Strategy::Streaming => true,
        };
        DmaSetup {
            peripheral_address: COMPARE_ADDRESS,
            sample_bits: 16,
            memory_increment: true,
            circular: streaming,
            half_transfer_interrupt: streaming,
            transfer_complete_interrupt: true,
        }
    }

    /// Writes the 24 compare values of `color` at the places of LED
    /// `led_num` of a frame buffer. The places of the other LEDs and the
    /// reset after the last LED stay as they are.
    pub fn set_color_pattern(&self, color: Color, led_num: usize, buffer: &mut DisplayBuffer)
        requires
            led_num < NUM_LEDS,
        ensures
            final(buffer)@ == with_pattern(
                old(buffer)@,
                led_num as int,
                self@.samples_of(color),
            ),
            final(buffer)@.subrange(24 * NUM_LEDS, DISPLAY_LEN as int) == old(buffer)@.subrange(
                24 * NUM_LEDS,
                DISPLAY_LEN as int,
            ),
    {
        encode(color, buffer, led_num, self.timing.duty_zero, self.timing.duty_one);
        assert(buffer@.subrange(24 * NUM_LEDS, DISPLAY_LEN as int) =~= old(buffer)@.subrange(
            24 * NUM_LEDS,
            DISPLAY_LEN as int,
        ));
    }

    /// Writes a whole frame to a frame buffer: the 24 compare values of
    /// each LED of the matrix, row after row, then the reset.
    pub fn encode_frame(&self, frame: &LedMatrix8x8, buffer: &mut DisplayBuffer)
        ensures
            final(buffer)@ == frame_samples(
                frame@,
                self@.timing.duty_zero,
                self@.timing.duty_one,
                NUM_RESET as int,
            ),
    {
        let ghost duty_zero = self.timing.duty_zero;
        let ghost duty_one = self.timing.duty_one;
        let mut led: usize = 0;
        while led < NUM_LEDS
            invariant
                led <= NUM_LEDS,
                duty_zero == self.timing.duty_zero,
                duty_one == self.timing.duty_one,
                forall|i: int|
                    0 <= i < 24 * led ==> buffer@[i] == pattern(
                        frame@[i / 24],
                        duty_zero,
                        duty_one,
                    )[i % 24],
            decreases NUM_LEDS - led,
        {
            let color = frame.data[led / 8][led % 8];
            assert(color == frame@[led as int]);
            self.set_color_pattern(color, led, buffer);
            assert forall|i: int| 0 <= i < 24 * (led + 1) implies buffer@[i] == pattern(
                frame@[i / 24],
                duty_zero,
                duty_one,
            )[i % 24] by {
                if i >= 24 * led {
                    assert(i / 24 == led);
                    assert(i % 24 == i - 24 * led);
                }
            }
            led += 1;
        }
        encode_reset(buffer, SAMPLES_PER_LED * NUM_LEDS, DISPLAY_LEN);
        assert(buffer@ =~= frame_samples(frame@, duty_zero, duty_one, NUM_RESET as int));
    }

    /// Starts a frame: the whole of `buffer` in one transfer.
    ///
    /// Accepted from `Idle` by a one-shot engine, which then sends. An
    /// engine in another phase, or one made for streaming, stays as it
    /// is and gives no transfer.
    pub fn start(&mut self, buffer: &mut DisplayBuffer) -> (transfer: Option<Transfer>)
        ensures
            final(buffer)@ == old(buffer)@,
            old(self)@.can_start(Strategy::OneShot) ==> final(self)@ == old(self)@.frame_started()
                && transfer == Some(
                Transfer { length: DISPLAY_LEN as u32, circular: false, first_compare: 0 },
            ),
            !old(self)@.can_start(Strategy::OneShot) ==> final(self)@ == old(self)@ && transfer
                is None,
            final(self)@.wf(),
    {
        proof {
            use_type_invariant(&*self);
        }
        match (self.phase, self.strategy) {
            (Phase::Idle, Strategy::OneShot) => {
                self.phase = Phase::Transmitting;
                Some(Transfer { length: buffer.len() as u32, circular: false, first_compare: 0 })
            },
            _ => None,
        }
    }

    /// Starts a stream with its first colour.
    ///
    /// Accepted from `Idle` by a streaming engine: the colour goes to
    /// the lower half, which is read first and is marked active, the
    /// upper half is set to zero, and the engine is `Armed`. An engine
    /// in another phase, or one made for whole frames, stays as it is
    /// and gives no transfer.
    pub fn start_stream(&mut self, first: Color) -> (transfer: Option<Transfer>)
        ensures
            old(self)@.can_start(Strategy::Streaming) ==> final(self)@ == old(
                self,
            )@.stream_started(first) && transfer == Some(
                Transfer { length: STREAM_LEN as u32, circular: true, first_compare: 0 },
            ),
            !old(self)@.can_start(Strategy::Streaming) ==> final(self)@ == old(self)@ && transfer
                is None,
            final(self)@.wf(),
    {
        proof {
            use_type_invariant(&*self);
        }
        match (self.phase, self.strategy) {
            (Phase::Idle, Strategy::Streaming) => {
                encode(first, &mut self.stream, 0, self.timing.duty_zero, self.timing.duty_one);
                encode_reset(&mut self.stream, SAMPLES_PER_LED, STREAM_LEN);
                self.active = Half::Lower;
                self.phase = Phase::Armed;
                assert(self@.stream =~= old(self)@.samples_of(first) + reset_half());
                Some(Transfer { length: STREAM_LEN as u32, circular: true, first_compare: 0 })
            },
            _ => None,
        }
    }

    /// Writes the next colour to the half that is not being read, and
    /// marks that half active.
    ///
    /// Accepted where a half waits to be written: once after the start,
    /// and once after each DMA interrupt. Otherwise the engine stays as
    /// it is and the result is `false`.
    pub fn set_next_buffer(&mut self, color: Color) -> (accepted: bool)
        ensures
            accepted == old(self)@.refill_due(),
            accepted ==> final(self)@ == old(self)@.refilled(color),
            !accepted ==> final(self)@ == old(self)@,
            final(self)@.wf(),
    {
        proof {
            use_type_invariant(&*self);
        }
        match (self.strategy, self.phase) {
            (Strategy::Streaming, Phase::Armed) | (Strategy::Streaming, Phase::Refilling) => {
                let target = self.active.flipped();
                encode(
                    color,
                    &mut self.stream,
                    target.led_index(),
                    self.timing.duty_zero,
                    self.timing.duty_one,
                );
                self.active = target;
                self.phase = Phase::Transmitting;
                true
            },
            _ => false,
        }
    }

    /// Writes zeros to the half that is not being read, marks that half
    /// active and begins to drain: from now on every half that the
    /// hardware leaves behind is set to zero.
    ///
    /// Accepted where a half waits to be written. Otherwise the engine
    /// stays as it is and the result is `false`.
    pub fn set_reset_pattern(&mut self) -> (accepted: bool)
        ensures
            accepted == old(self)@.refill_due(),
            accepted ==> final(self)@ == old(self)@.reset_queued(),
            !accepted ==> final(self)@ == old(self)@,
            final(self)@.wf(),
    {
        proof {
            use_type_invariant(&*self);
        }
        match (self.strategy, self.phase) {
            (Strategy::Streaming, Phase::Armed) | (Strategy::Streaming, Phase::Refilling) => {
                let target = self.active.flipped();
                let from: usize = 24 * target.led_index();
                encode_reset(&mut self.stream, from, from + 24);
                self.active = target;
                self.phase = Phase::Draining;
                self.reset_pending = DRAIN_EVENTS;
                true
            },
            _ => false,
        }
    }

    /// Takes in a DMA interrupt and says what the caller has to do.
    pub fn on_dma_event(&mut self, event: DmaEvent) -> (request: Request)
        ensures
            final(self)@ == old(self)@.after_event(event),
            request == final(self)@.request(),
            final(self)@.wf(),
    {
        proof {
            use_type_invariant(&*self);
        }
        match self.strategy {
            Strategy::OneShot => {
                match (self.phase, event) {
                    (Phase::Transmitting, DmaEvent::TransferComplete) => {
                        self.phase = Phase::Draining;
                        Request::Stop
                    },
                    (Phase::Draining, _) => Request::Stop,
                    _ => Request::Nothing,
                }
            },
            Strategy::Streaming => {
                match self.phase {
                    Phase::Idle => Request::Nothing,
                    Phase::Transmitting => {
                        self.phase = Phase::Refilling;
                        Request::Refill
                    },
                    Phase::Armed | Phase::Refilling => {
                        if self.overruns < u32::MAX {
                            self.overruns = self.overruns + 1;
                        }
                        Request::Refill
                    },
                    Phase::Draining => {
                        if self.reset_pending > 0 {
                            let target = self.active.flipped();
                            let from: usize = 24 * target.led_index();
                            encode_reset(&mut self.stream, from, from + 24);
                            self.active = target;
                            self.reset_pending = self.reset_pending - 1;
                        }
                        if self.reset_pending == 0 {
                            Request::Stop
                        } else {
                            Request::Nothing
                        }
                    },
                }
            },
        }
    }

    /// Stops the engine once the reset has been sent: the caller then
    /// disables the DMA channel.
    ///
    /// Accepted while draining, once no interrupt is left to wait for;
    /// the engine is then `Idle`. Otherwise it stays as it is and the
    /// result is `false`.
    pub fn stop(&mut self) -> (accepted: bool)
        ensures
            accepted == old(self)@.drained(),
            accepted ==> final(self)@ == old(self)@.stopped(),
            !accepted ==> final(self)@ == old(self)@,
            final(self)@.wf(),
    {
        proof {
            use_type_invariant(&*self);
        }
        match self.phase {
            Phase::Draining => {
                if self.reset_pending == 0 {
                    self.phase = Phase::Idle;
                    true
                } else {
                    false
                }
            },
            _ => false,
        }
    }

    /// Whether a transfer is still going: the engine has started and
    /// the reset has not been sent yet.
    pub fn is_active(&self) -> (active: bool)
        ensures
            active == self@.sending(),
    {
        proof {
            use_type_invariant(self);
        }
        match self.phase {
            Phase::Idle => false,
            Phase::Draining => self.reset_pending > 0,
            _ => true,
        }
    }

    /// Whether a timer interrupt is a compare interrupt: it is one
    /// where no update is pending.
    pub fn is_cmp_irq(&self, update_pending: bool) -> (compare: bool)
        ensures
            compare == !update_pending,
    {
        !update_pending
    }
}

/// Every step of the engine keeps its invariant.
pub proof fn lemma_steps_keep_invariant(s: EngineState, color: Color, event: DmaEvent)
    requires
        s.wf(),
    ensures
        s.can_start(Strategy::OneShot) ==> s.frame_started().wf(),
        s.can_start(Strategy::Streaming) ==> s.stream_started(color).wf(),
        s.refill_due() ==> s.refilled(color).wf() && s.reset_queued().wf(),
        s.after_event(event).wf(),
        s.drained() ==> s.stopped().wf(),
{
}

/// A stream that was started holds its first colour in the lower half,
/// which is the active one, and the reset in the upper half.
pub proof fn lemma_started_stream_halves(s: EngineState, first: Color)
    requires
        s.wf(),
    ensures
        s.stream_started(first).active == Half::Lower,
        decoded(
            half_of(s.stream_started(first).stream, Half::Lower),
            s.timing.duty_zero,
            s.timing.duty_one,
        ) == Some(first),
        half_of(s.stream_started(first).stream, Half::Upper) == reset_half(),
{
    let t = s.stream_started(first);
    assert(half_of(t.stream, Half::Lower) =~= s.samples_of(first));
    assert(half_of(t.stream, Half::Upper) =~= reset_half());
    lemma_decode_encode(first, s.timing.duty_zero, s.timing.duty_one);
}

/// A refill writes the half that was not active, which then decodes to
/// the colour and is the active one; the half that was active keeps its
/// samples.
pub proof fn lemma_refill_flips_halves(s: EngineState, color: Color)
    requires
        s.wf(),
    ensures
        s.refilled(color).active == s.active.other(),
        decoded(
            half_of(s.refilled(color).stream, s.active.other()),
            s.timing.duty_zero,
            s.timing.duty_one,
        ) == Some(color),
        half_of(s.refilled(color).stream, s.active) == half_of(s.stream, s.active),
{
    let t = s.refilled(color);
    assert(half_of(t.stream, s.active.other()) =~= s.samples_of(color));
    assert(half_of(t.stream, s.active) =~= half_of(s.stream, s.active));
    lemma_decode_encode(color, s.timing.duty_zero, s.timing.duty_one);
}

/// The reset pattern sets the half that was not active to zero and
/// makes it the active one; the half that was active keeps its samples.
pub proof fn lemma_reset_flips_halves(s: EngineState)
    requires
        s.wf(),
    ensures
        s.reset_queued().active == s.active.other(),
        half_of(s.reset_queued().stream, s.active.other()) == reset_half(),
        half_of(s.reset_queued().stream, s.active) == half_of(s.stream, s.active),
{
    let t = s.reset_queued();
    assert(half_of(t.stream, s.active.other()) =~= reset_half());
    assert(half_of(t.stream, s.active) =~= half_of(s.stream, s.active));
}

/// Once the reset pattern is queued, four DMA interrupts of any kind
/// drain the stream: before the fourth the engine does not ask to stop,
/// after it the engine does, and both halves hold zeros, so that at
/// least 72 zero samples, more than the reset needs, have been sent.
pub proof fn lemma_drain_takes_four_events(
    s: EngineState,
    e1: DmaEvent,
    e2: DmaEvent,
    e3: DmaEvent,
    e4: DmaEvent,
)
    requires
        s.wf(),
        s.refill_due(),
    ensures
        !s.reset_queued().after_event(e1).after_event(e2).after_event(e3).drained(),
        s.reset_queued().after_event(e1).after_event(e2).after_event(e3).after_event(e4).drained(),
        s.reset_queued().after_event(e1).after_event(e2).after_event(e3).after_event(e4).stream
            == Seq::new(48, |i: int| 0u16),
        (DRAIN_EVENTS - 1) * 24 >= NUM_RESET,
{
    let q = s.reset_queued();
    let a = q.after_event(e1);
    let b = a.after_event(e2);
    let c = b.after_event(e3);
    let d = c.after_event(e4);
    assert(half_of(q.stream, q.active) =~= reset_half());
    assert(a.stream =~= Seq::new(48, |i: int| 0u16)) by {
        assert forall|i: int| 0 <= i < 48 implies a.stream[i] == 0 by {
            if 24 * q.active.index() <= i < 24 * q.active.index() + 24 {
                assert(half_of(q.stream, q.active)[i - 24 * q.active.index()] == q.stream[i]);
            }
        }
    }
    assert(b.stream =~= a.stream);
    assert(c.stream =~= b.stream);
    assert(d.stream =~= c.stream);
}

/// A refill that comes too late is counted: an interrupt that finds a
/// half still waiting raises the count by one, up to the largest `u32`,
/// and changes nothing else; any other interrupt leaves the count as it
/// is.
pub proof fn lemma_overrun_counted(s: EngineState, event: DmaEvent)
    requires
        s.wf(),
    ensures
        s.refill_due() && s.overruns < u32::MAX ==> s.after_event(event) == (EngineState {
            overruns: s.overruns + 1,
            ..s
        }),
        !s.refill_due() ==> s.after_event(event).overruns == s.overruns,
{
}

} // verus!
