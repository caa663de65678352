//! A frame of 64 LEDs, laid out as eight rows of eight.

use crate::color::Color;
use vstd::prelude::*;

verus! {

/// The frame with every colour inverted, in the same order.
pub open spec fn inverted_frame(s: Seq<Color>) -> Seq<Color> {
    Seq::new(s.len(), |k: int| s[k].inverted())
}

/// The frame rotated by one place towards higher positions: each colour
/// moves to the next position, and the last one comes to the front.
pub open spec fn rotated_up(s: Seq<Color>) -> Seq<Color> {
    Seq::new(
        s.len(),
        |k: int|
            if k == 0 {
                s[s.len() - 1]
            } else {
                s[k - 1]
            },
    )
}

/// The frame rotated by one place towards lower positions: each colour
/// moves to the position before it, and the first one goes to the end.
pub open spec fn rotated_down(s: Seq<Color>) -> Seq<Color> {
    Seq::new(
        s.len(),
        |k: int|
            if k == s.len() - 1 {
                s[0]
            } else {
                s[k + 1]
            },
    )
}

/// The colours of an 8 by 8 matrix, row after row.
#[derive(Debug)]
pub struct LedMatrix8x8 {
    pub data: [[Color; 8]; 8],
}

impl View for LedMatrix8x8 {
    type V = Seq<Color>;

    /// The 64 colours in row-major order.
    open spec fn view(&self) -> Seq<Color> {
        Seq::new(64, |k: int| self.data@[k / 8]@[k % 8])
    }
}

impl LedMatrix8x8 {
    /// A matrix with every LED in the given colour.
    pub fn new(color: Color) -> (m: Self)
        ensures
            m@ == Seq::new(64, |k: int| color),
    {
        let m = Self { data: [[color; 8]; 8] };
        assert(m@ =~= Seq::new(64, |k: int| color));
        m
    }

    /// Inverts the colour of every LED.
    pub fn invert(&mut self)
        ensures
            final(self)@ == inverted_frame(old(self)@),
    {
        let mut k: usize = 0;
        while k < 64
            invariant
                k <= 64,
                forall|n: int| 0 <= n < k ==> self@[n] == old(self)@[n].inverted(),
                forall|n: int| k <= n < 64 ==> self@[n] == old(self)@[n],
            decreases 64 - k,
        {
            let ghost before = self@;
            let mut led = self.data[k / 8][k % 8];
            led.invert();
            self.data[k / 8][k % 8] = led;
            assert(self@ =~= before.update(k as int, led));
            k += 1;
        }
        assert(self@ =~= inverted_frame(old(self)@));
    }

    /// Moves every colour one position up; the last one wraps to the
    /// first position.
    pub fn shift_pos(&mut self)
        ensures
            final(self)@ == rotated_up(old(self)@),
    {
        let mut saved_element = self.data[7][7];
        let mut k: usize = 0;
        while k < 64
            invariant
                k <= 64,
                saved_element == (if k == 0 {
                    old(self)@[63]
                } else {
                    old(self)@[k - 1]
                }),
                forall|n: int| 0 <= n < k ==> self@[n] == rotated_up(old(self)@)[n],
                forall|n: int| k <= n < 64 ==> self@[n] == old(self)@[n],
            decreases 64 - k,
        {
            let ghost before = self@;
            let led = self.data[k / 8][k % 8];
            self.data[k / 8][k % 8] = saved_element;
            assert(self@ =~= before.update(k as int, saved_element));
            saved_element = led;
            k += 1;
        }
        assert(self@ =~= rotated_up(old(self)@));
    }

    /// Moves every colour one position down; the first one wraps to the
    /// last position.
    pub fn shift_neg(&mut self)
        ensures
            final(self)@ == rotated_down(old(self)@),
    {
        let mut saved_element = self.data[0][0];
        let mut k: usize = 64;
        while k > 0
            invariant
                k <= 64,
                saved_element == (if k == 64 {
                    old(self)@[0]
                } else {
                    old(self)@[k as int]
                }),
                forall|n: int| k <= n < 64 ==> self@[n] == rotated_down(old(self)@)[n],
                forall|n: int| 0 <= n < k ==> self@[n] == old(self)@[n],
            decreases k,
        {
            k -= 1;
            let ghost before = self@;
            let led = self.data[k / 8][k % 8];
            self.data[k / 8][k % 8] = saved_element;
            assert(self@ =~= before.update(k as int, saved_element));
            saved_element = led;
        }
        assert(self@ =~= rotated_down(old(self)@));
    }
}

impl Default for LedMatrix8x8 {
    fn default() -> (m: Self)
        ensures
            m@ == Seq::new(64, |k: int| Color { r: 0, g: 0, b: 0 }),
    {
        LedMatrix8x8::new(Color::led_off())
    }
}

/// Rotating a frame of any length up and then down, or down and then up,
/// gives the frame back.
pub proof fn lemma_rotations_cancel(s: Seq<Color>)
    ensures
        rotated_down(rotated_up(s)) == s,
        rotated_up(rotated_down(s)) == s,
{
    assert(rotated_down(rotated_up(s)) =~= s);
    assert(rotated_up(rotated_down(s)) =~= s);
}

/// Inverting every colour of a frame twice gives the frame back.
pub proof fn lemma_invert_frame_twice(s: Seq<Color>)
    ensures
        inverted_frame(inverted_frame(s)) == s,
{
    assert(inverted_frame(inverted_frame(s)) =~= s);
}

} // verus!
