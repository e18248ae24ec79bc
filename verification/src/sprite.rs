//! What "draw sprite" does to the display as a whole, and why drawing a
//! sprite twice erases it.

use vstd::prelude::*;
use crate::framebuffer::{lemma_offset, Screen};
use crate::laws::lemma_draw_frame;
use crate::machine::{sprite_bit, Machine};

verus! {

/// Whether, among the first `count` pixels of the sprite that "draw" reads
/// in state `s`, a set bit lands on the display pixel at `offset`. The
/// pixel lies `line` rows below `Vy` and `position` columns right of `Vx`,
/// both counted round the edges; it is hit if the sprite reaches that far
/// and has that bit set.
pub open spec fn hits(s: Machine, x: u8, y: u8, count: int, offset: int) -> bool {
    let line = (offset / s.screen.width - s.v(y)) % s.screen.height;
    let position = (offset % s.screen.width - s.v(x)) % s.screen.width;
    &&& position < 8
    &&& 8 * line + position < count
    &&& sprite_bit(s.memory[s.index_register + line], position) == 1
}

/// Whether one of the first `count` pixels of the sprite lands on a pixel
/// that is lit in `s`.
pub open spec fn collides(s: Machine, x: u8, y: u8, count: int) -> bool {
    exists|offset: int|
        0 <= offset < s.screen.pixels.len() && #[trigger] hits(s, x, y, count, offset)
            && s.screen.pixels[offset]
}

/// The state with every pixel toggled that one of the first `count` pixels
/// of the sprite lands on, and the flag register telling whether one of
/// them was lit.
pub open spec fn drawn(s: Machine, x: u8, y: u8, count: int) -> Machine {
    Machine {
        registers: s.registers.update(
            15,
            if collides(s, x, y, count) {
                1u8
            } else {
                0u8
            },
        ),
        screen: Screen {
            pixels: Seq::new(
                s.screen.pixels.len(),
                |offset: int| s.screen.pixels[offset] ^ hits(s, x, y, count, offset),
            ),
            ..s.screen
        },
        ..s
    }
}

/// On a row or column of `m` pixels, the pixel `d` places after `v`,
/// counted round the edge, is the only one that lies `d` places after `v`.
proof fn lemma_wrap(a: int, v: int, d: int, m: int)
    requires
        m == 32 || m == 64,
        0 <= a < m,
        0 <= v < 256,
        0 <= d < 32,
    ensures
        (a - v) % m == d <==> a == (v + d) % m,
{
}

/// Handling one more pixel of the sprite toggles the pixel it lands on, if
/// its bit is set, and no other.
proof fn lemma_one_more(s: Machine, x: u8, y: u8, done: int, offset: int)
    requires
        s.wf(),
        x < 15,
        y < 15,
        0 <= done < 128,
        0 <= offset < s.screen.pixels.len(),
    ensures
        ({
            let row = (s.v(y) + done / 8) % s.screen.height;
            let col = (s.v(x) + done % 8) % s.screen.width;
            let bit = sprite_bit(s.memory[s.index_register + done / 8], done % 8) == 1;
            &&& !hits(s, x, y, done, s.screen.offset(col, row))
            &&& hits(s, x, y, done + 1, s.screen.offset(col, row)) == bit
            &&& offset != s.screen.offset(col, row) ==> hits(s, x, y, done + 1, offset) == hits(
                s,
                x,
                y,
                done,
                offset,
            )
        }),
{
    let height = s.screen.height;
    let row = (s.v(y) + done / 8) % height;
    let col = (s.v(x) + done % 8) % 64;
    lemma_offset(s.screen, col, row);
    // the pixel that the bit lands on lies `done / 8` rows below `Vy` and
    // `done % 8` columns right of `Vx`
    lemma_wrap(row, s.v(y) as int, done / 8, height);
    lemma_wrap(col, s.v(x) as int, done % 8, 64);
    // and a pixel that lies there is that pixel
    lemma_wrap(offset / 64, s.v(y) as int, done / 8, height);
    lemma_wrap(offset % 64, s.v(x) as int, done % 8, 64);
}

/// "Draw sprite" through registers other than the flag register, as a
/// whole: after the first `count` pixels of the sprite, each display pixel
/// has been toggled exactly if one of them landed on it, and the flag
/// register is 1 exactly if one of them landed on a pixel that was lit
/// before the instruction.
pub proof fn lemma_draw_prefix(s: Machine, x: u8, y: u8, count: nat)
    requires
        s.wf(),
        x < 15,
        y < 15,
        count <= 128,
    ensures
        s.draw_prefix(x, y, count) == drawn(s, x, y, count as int),
    decreases count,
{
    if count > 0 {
        let done = (count - 1) as nat;
        lemma_draw_prefix(s, x, y, done);
        let len = s.screen.pixels.len() as int;
        let row = (s.v(y) + done as int / 8) % s.screen.height;
        let col = (s.v(x) + done as int % 8) % s.screen.width;
        let target = s.screen.offset(col, row);
        let bit = sprite_bit(s.memory[s.index_register + done as int / 8], done as int % 8) == 1;
        lemma_offset(s.screen, col, row);
        lemma_one_more(s, x, y, done as int, target);
        assert forall|offset: int| 0 <= offset < len && offset != target implies #[trigger] hits(
            s,
            x,
            y,
            count as int,
            offset,
        ) == hits(s, x, y, done as int, offset) by {
            lemma_one_more(s, x, y, done as int, offset);
        }
        assert(collides(s, x, y, count as int) == (collides(s, x, y, done as int) || (bit
            && s.screen.pixels[target]))) by {
            if collides(s, x, y, done as int) {
                let witness = choose|offset: int|
                    0 <= offset < len && #[trigger] hits(s, x, y, done as int, offset)
                        && s.screen.pixels[offset];
                assert(hits(s, x, y, count as int, witness));
            }
        }
    }
}

/// "Draw sprite" through registers other than the flag register toggles
/// exactly the pixels that a set bit of the sprite lands on, sets the flag
/// register to 1 if one of them was lit and to 0 if none was, and changes
/// nothing else.
pub proof fn lemma_draw_sprite(s: Machine, x: u8, y: u8, n: u8)
    requires
        s.wf(),
        x < 15,
        y < 15,
        n < 16,
    ensures
        s.drw_vx_vy_n(x, y, n) == drawn(s, x, y, 8 * n),
        forall|offset: int|
            0 <= offset < s.screen.pixels.len() ==> s.drw_vx_vy_n(x, y, n).screen.pixels[offset]
                == (s.screen.pixels[offset] ^ hits(s, x, y, 8 * n, offset)),
        s.drw_vx_vy_n(x, y, n).v(15) == 1 <==> collides(s, x, y, 8 * n),
        s.drw_vx_vy_n(x, y, n).v(15) == 0 <==> !collides(s, x, y, 8 * n),
{
    lemma_draw_prefix(s, x, y, 8 * n as nat);
}

/// Drawing the same sprite twice at the same place, through registers
/// other than the flag register, erases it: the display is again what it
/// was, so every pixel that the first drawing lit is dark again, and the
/// flag register is 1 if the first drawing lit a pixel, 0 if it lit none.
/// Nothing but the flag register differs from the state before.
pub proof fn lemma_draw_twice(s: Machine, x: u8, y: u8, n: u8)
    requires
        s.wf(),
        x < 15,
        y < 15,
        n < 16,
    ensures
        ({
            let once = s.drw_vx_vy_n(x, y, n);
            let twice = once.drw_vx_vy_n(x, y, n);
            let lit = exists|offset: int|
                0 <= offset < s.screen.pixels.len() && #[trigger] once.screen.pixels[offset]
                    && !s.screen.pixels[offset];
            &&& twice.screen == s.screen
            &&& forall|offset: int|
                0 <= offset < s.screen.pixels.len() && once.screen.pixels[offset]
                    && !s.screen.pixels[offset] ==> !twice.screen.pixels[offset]
            &&& lit ==> twice.v(15) == 1
            &&& !lit ==> twice.v(15) == 0
            &&& twice == (Machine { registers: s.registers.update(15, twice.v(15)), ..s })
        }),
{
    let count = 8 * n as nat;
    let once = s.drw_vx_vy_n(x, y, n);
    lemma_draw_prefix(s, x, y, count);
    lemma_draw_frame(s, x, y, count);
    lemma_draw_prefix(once, x, y, count);
    // the sprite lands on the same pixels both times
    assert(forall|offset: int|
        hits(once, x, y, count as int, offset) == hits(s, x, y, count as int, offset));
}

} // verus!
