//! Driver logic for WS2812 style addressable LEDs fed by a timer's PWM
//! channel and a DMA channel: colours, a frame of LEDs, the timer values
//! for the bit clock, the duty-cycle encoding of a colour, and the state
//! machine of the transmission engine.

pub mod color;
pub mod fade;
pub mod led_matrix_8x8;
pub mod ws2812;
