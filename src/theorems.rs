use vstd::prelude::*;

use crate::chip::{advance, fetched, run, settled, step, ChipError, ChipState, FLAG};
use crate::display::{
    binary_pixels, blank, collides, collision, drawn, flipped, pixel_index, sprite_bit,
    step_count, HEIGHT, WIDTH,
};
use crate::instruction::{decoded, nibbles, Instruction};
use crate::keyboard::{lowest_pressed, released, KEY_COUNT};
use crate::memory::{overwritten, MEMORY_SIZE};

verus! {

/// The opcode with top nibble `a`, register nibble `x` and low byte `low`.
pub open spec fn encode(a: u16, x: u8, low: u8) -> u16 {
    (a << 12u16) | ((x as u16) << 8u16) | (low as u16)
}

proof fn lemma_encode(a: u16, x: u8, low: u8)
    requires
        a < 16,
        x < 16,
    ensures
        nibbles(encode(a, x, low)) == (a as u8, x, (low >> 4u8) & 0xF, low & 0xF),
        (encode(a, x, low) & 0x00FF) as u8 == low,
{
    let op = encode(a, x, low);
    assert(((op >> 12u16) & 0xF) as u8 == a as u8 && ((op >> 8u16) & 0xF) as u8 == x && ((op
        >> 4u16) & 0xF) as u8 == (low >> 4u8) & 0xF && (op & 0xF) as u8 == low & 0xF && (op
        & 0x00FF) as u8 == low) by (bit_vector)
        requires
            a < 16,
            x < 16,
            op == (a << 12u16) | ((x as u16) << 8u16) | (low as u16),
    ;
}

/// `7xkk` adds `kk` to `Vx` modulo 256, leaves every other register, `VF`
/// included, as it was, and moves on to the next instruction.
pub proof fn add_byte_wraps(s: ChipState, x: u8, kk: u8, rnd: u8)
    requires
        s.wf(),
        x < 16,
    ensures
        step(s, encode(7, x, kk), rnd) == Ok::<ChipState, ChipError>(
            ChipState {
                v: s.v.update(x as int, ((s.v[x as int] + kk) % 256) as u8),
                pc: advance(s.pc, 2),
                ..s
            },
        ),
        x != FLAG ==> step(s, encode(7, x, kk), rnd)->Ok_0.v[FLAG as int] == s.v[FLAG as int],
{
    lemma_encode(7, x, kk);
}

/// `8xy4` stores `(Vx + Vy) mod 256` in `Vx` and sets `VF` to 1 exactly when the
/// sum exceeds 255; when `x` is `F` the flag is what remains in `VF`.
pub proof fn add_reg_carries(s: ChipState, x: u8, y: u8, rnd: u8)
    requires
        s.wf(),
        x < 16,
        y < 16,
    ensures
        ({
            let (a, b) = (s.v[x as int], s.v[y as int]);
            let t = step(s, encode(8, x, (y << 4u8) | 4), rnd);
            &&& t is Ok
            &&& t->Ok_0.v[FLAG as int] == (if a + b > 255 {
                1u8
            } else {
                0u8
            })
            &&& x != FLAG ==> t->Ok_0.v[x as int] == ((a + b) % 256) as u8
            &&& t->Ok_0.pc == advance(s.pc, 2)
        }),
{
    lemma_encode(8, x, (y << 4u8) | 4);
    assert(((y << 4u8) | 4) >> 4u8 & 0xF == y && ((y << 4u8) | 4) & 0xF == 4) by (bit_vector)
        requires
            y < 16,
    ;
}

/// `8xy5` stores `(Vx - Vy) mod 256` in `Vx` and sets `VF` to 1 exactly when
/// `Vx >= Vy`, that is when no borrow occurs; when `x` is `F` the flag is what
/// remains in `VF`.
pub proof fn sub_reg_borrows(s: ChipState, x: u8, y: u8, rnd: u8)
    requires
        s.wf(),
        x < 16,
        y < 16,
    ensures
        ({
            let (a, b) = (s.v[x as int], s.v[y as int]);
            let t = step(s, encode(8, x, (y << 4u8) | 5), rnd);
            &&& t is Ok
            &&& t->Ok_0.v[FLAG as int] == (if a >= b {
                1u8
            } else {
                0u8
            })
            &&& x != FLAG ==> t->Ok_0.v[x as int] == ((a - b) % 256) as u8
            &&& t->Ok_0.pc == advance(s.pc, 2)
        }),
{
    lemma_encode(8, x, (y << 4u8) | 5);
    assert(((y << 4u8) | 5) >> 4u8 & 0xF == y && ((y << 4u8) | 5) & 0xF == 5) by (bit_vector)
        requires
            y < 16,
    ;
}

/// Drawing a sprite twice at the same place leaves the framebuffer as it was.
pub proof fn draw_twice_restores(buf: Seq<u8>, x: int, y: int, sprite: Seq<u8>)
    requires
        binary_pixels(buf),
    ensures
        drawn(drawn(buf, x, y, sprite), x, y, sprite) == buf,
{
    let once = drawn(buf, x, y, sprite);
    let twice = drawn(once, x, y, sprite);
    assert forall|p: int| 0 <= p < buf.len() implies twice[p] == buf[p] by {
        let v = buf[p];
        assert(v <= 1 ==> ((v ^ 1u8) ^ 1u8) == v) by (bit_vector);
    }
    assert(twice =~= buf);
}

proof fn lemma_shifted_mod_injective(c: int, a: int, b: int, m: int)
    requires
        0 <= c,
        0 <= a < m,
        0 <= b < m,
        (c + a) % m == (c + b) % m,
    ensures
        a == b,
{
    vstd::arithmetic::div_mod::lemma_fundamental_div_mod(c + a, m);
    vstd::arithmetic::div_mod::lemma_fundamental_div_mod(c + b, m);
    let (q1, q2) = ((c + a) / m, (c + b) / m);
    assert(a - b == m * (q1 - q2)) by (nonlinear_arith)
        requires
            c + a == m * q1 + (c + a) % m,
            c + b == m * q2 + (c + b) % m,
            (c + a) % m == (c + b) % m,
    ;
    assert(q1 == q2) by (nonlinear_arith)
        requires
            a - b == m * (q1 - q2),
            -m < a - b < m,
            m > 0,
    ;
}

/// Distinct steps of a sprite of at most `HEIGHT` rows reach distinct pixels.
proof fn lemma_steps_distinct(x: int, y: int, sprite: Seq<u8>, j: int, k: int)
    requires
        0 <= x,
        0 <= y,
        sprite.len() <= HEIGHT,
        0 <= j < step_count(sprite),
        0 <= k < step_count(sprite),
        j != k,
    ensures
        pixel_index(x, y, j) != pixel_index(x, y, k),
{
    vstd::arithmetic::div_mod::lemma_fundamental_div_mod(j, 8);
    vstd::arithmetic::div_mod::lemma_fundamental_div_mod(k, 8);
    let (rj, rk) = ((y + j / 8) % (HEIGHT as int), (y + k / 8) % (HEIGHT as int));
    let (cj, ck) = ((x + j % 8) % (WIDTH as int), (x + k % 8) % (WIDTH as int));
    if pixel_index(x, y, j) == pixel_index(x, y, k) {
        assert(rj * 64 + cj == rk * 64 + ck);
        assert(rj == rk && cj == ck);
        lemma_shifted_mod_injective(y, j / 8, k / 8, HEIGHT as int);
        lemma_shifted_mod_injective(x, j % 8, k % 8, WIDTH as int);
    }
}

/// Pixel `pixel_index(x, y, k)` of a lit step `k` is toggled by step `k` alone.
proof fn lemma_flipped_once(x: int, y: int, sprite: Seq<u8>, k: int, m: nat)
    requires
        0 <= x,
        0 <= y,
        sprite.len() <= HEIGHT,
        0 <= k < step_count(sprite),
        sprite_bit(sprite, k),
        m <= step_count(sprite),
    ensures
        flipped(x, y, sprite, pixel_index(x, y, k), m) == (m > k),
    decreases m,
{
    if m > 0 {
        lemma_flipped_once(x, y, sprite, k, (m - 1) as nat);
        if m - 1 != k {
            lemma_steps_distinct(x, y, sprite, m - 1, k);
        }
    }
}

proof fn lemma_collides_grows(buf: Seq<u8>, x: int, y: int, sprite: Seq<u8>, k: nat, m: nat)
    requires
        collides(buf, x, y, sprite, k),
        k <= m,
    ensures
        collides(buf, x, y, sprite, m),
    decreases m,
{
    if k < m {
        lemma_collides_grows(buf, x, y, sprite, k, (m - 1) as nat);
    }
}

/// A lit bit of the sprite that lands on a pixel unlit in `buf`.
pub open spec fn lands_on_unlit(buf: Seq<u8>, x: int, y: int, sprite: Seq<u8>, k: int) -> bool {
    0 <= k < step_count(sprite) && sprite_bit(sprite, k) && buf[pixel_index(x, y, k)] == 0
}

proof fn lemma_collision_witness(buf: Seq<u8>, x: int, y: int, sprite: Seq<u8>, m: nat)
    requires
        buf.len() == crate::display::BUFFER_SIZE,
        binary_pixels(buf),
        0 <= x,
        0 <= y,
        sprite.len() <= HEIGHT,
        m <= step_count(sprite),
        collides(drawn(buf, x, y, sprite), x, y, sprite, m),
    ensures
        exists|k: int| #[trigger] lands_on_unlit(buf, x, y, sprite, k),
    decreases m,
{
    let once = drawn(buf, x, y, sprite);
    let j = m - 1;
    if collides(once, x, y, sprite, (m - 1) as nat) {
        lemma_collision_witness(buf, x, y, sprite, (m - 1) as nat);
    } else {
        let p = pixel_index(x, y, j);
        lemma_flipped_once(x, y, sprite, j, step_count(sprite));
        lemma_flipped_once(x, y, sprite, j, j as nat);
        let v = buf[p];
        assert(v <= 1 ==> ((v ^ 1u8) == 1u8 <==> v == 0u8)) by (bit_vector);
        assert(lands_on_unlit(buf, x, y, sprite, j));
    }
}

/// Drawing a sprite of at most `HEIGHT` rows a second time at the same place
/// reports a collision exactly when one of its lit bits fell on a pixel that
/// was unlit before the first draw.
pub proof fn redraw_collides(buf: Seq<u8>, x: int, y: int, sprite: Seq<u8>)
    requires
        buf.len() == crate::display::BUFFER_SIZE,
        binary_pixels(buf),
        0 <= x,
        0 <= y,
        sprite.len() <= HEIGHT,
    ensures
        collision(drawn(buf, x, y, sprite), x, y, sprite) <==> exists|k: int|
            #[trigger] lands_on_unlit(buf, x, y, sprite, k),
{
    if exists|k: int| #[trigger] lands_on_unlit(buf, x, y, sprite, k) {
        let k = choose|k: int| #[trigger] lands_on_unlit(buf, x, y, sprite, k);
        let p = pixel_index(x, y, k);
        let once = drawn(buf, x, y, sprite);
        lemma_flipped_once(x, y, sprite, k, step_count(sprite));
        lemma_flipped_once(x, y, sprite, k, k as nat);
        assert(0u8 ^ 1u8 == 1u8) by (bit_vector);
        assert(once[p] == 1u8);
        assert(collides(once, x, y, sprite, (k + 1) as nat));
        lemma_collides_grows(once, x, y, sprite, (k + 1) as nat, step_count(sprite));
    }
    if collision(drawn(buf, x, y, sprite), x, y, sprite) {
        lemma_collision_witness(buf, x, y, sprite, step_count(sprite));
    }
}

proof fn lemma_decode_transfer(x: u8)
    requires
        x < 16,
    ensures
        decoded(encode(0xF, x, 0x55)) == Some(Instruction::StoreRegs(x)),
        decoded(encode(0xF, x, 0x65)) == Some(Instruction::LoadRegs(x)),
{
    lemma_encode(0xF, x, 0x55);
    lemma_encode(0xF, x, 0x65);
    assert((0x55u8 >> 4u8) & 0xF == 5 && 0x55u8 & 0xF == 5 && (0x65u8 >> 4u8) & 0xF == 6
        && 0x65u8 & 0xF == 5) by (bit_vector);
}

/// `Fx55` followed by `Fx65` with the same `I` gives `V0..=Vx` back: the
/// registers are stored to memory and loaded again unchanged.
pub proof fn store_load_round_trip(s: ChipState, x: u8, rnd: u8)
    requires
        s.wf(),
        x < 16,
        s.i + x + 1 <= MEMORY_SIZE,
    ensures
        ({
            let stored = step(s, encode(0xF, x, 0x55), rnd);
            let loaded = step(stored->Ok_0, encode(0xF, x, 0x65), rnd);
            &&& stored is Ok
            &&& loaded is Ok
            &&& loaded->Ok_0.v == s.v
        }),
{
    lemma_decode_transfer(x);
    let t1 = run(s, Instruction::StoreRegs(x), rnd)->Ok_0;
    assert(t1.memory == overwritten(s.memory, s.i as int, s.v.subrange(0, x + 1)));
    assert(t1.i == s.i && t1.v == s.v);
    let t2 = run(t1, Instruction::LoadRegs(x), rnd)->Ok_0;
    assert(t2.v == overwritten(t1.v, 0, t1.memory.subrange(s.i as int, s.i + x + 1)));
    assert(t2.v =~= s.v);
}

/// `00E0` leaves every pixel of the framebuffer unlit.
pub proof fn clear_blanks(s: ChipState, rnd: u8)
    requires
        s.wf(),
    ensures
        step(s, 0x00E0, rnd) is Ok,
        step(s, 0x00E0, rnd)->Ok_0.screen == blank(),
{
    assert(nibbles(0x00E0) == (0u8, 0u8, 0xEu8, 0u8)) by (bit_vector);
}

proof fn lemma_lowest_pressed(k: u8)
    requires
        k < KEY_COUNT,
    ensures
        lowest_pressed(released()) is None,
        lowest_pressed(released().update(k as int, true)) == Some(k),
{
    let keys = released().update(k as int, true);
    assert(keys[k as int]);
    let c = choose|c: int|
        0 <= c < keys.len() && #[trigger] keys[c] && forall|j: int| 0 <= j < c ==> !keys[j];
    assert(c == k);
}

/// `Fx0A` waits for a key: while none is held, a tick on it changes nothing but
/// the damage descriptor, so `pc` stays on the instruction; once key `k` has been
/// pressed, the next tick stores `k` in `Vx` and moves `pc` on by 2.
pub proof fn wait_for_key(s: ChipState, x: u8, k: u8, rnd: u8)
    requires
        s.wf(),
        x < 16,
        k < KEY_COUNT,
        s.pc + 1 < MEMORY_SIZE,
        fetched(s) == encode(0xF, x, 0x0A),
        s.keys == released(),
    ensures
        step(settled(s), fetched(s), rnd) == Ok::<ChipState, ChipError>(settled(s)),
        ({
            let pressed = ChipState { keys: s.keys.update(k as int, true), ..s };
            step(settled(pressed), fetched(pressed), rnd) == Ok::<
                ChipState,
                ChipError,
            >(
                ChipState {
                    v: s.v.update(x as int, k),
                    pc: advance(s.pc, 2),
                    changes: None,
                    ..pressed
                },
            )
        }),
{
    lemma_encode(0xF, x, 0x0A);
    assert((0x0Au8 >> 4u8) & 0xF == 0 && 0x0Au8 & 0xF == 0xA) by (bit_vector);
    lemma_lowest_pressed(k);
}

} // verus!
