//! The checksum engine: a six-accumulator mixing pass over a fixed 1 MiB
//! window of big-endian 32-bit words drawn from the program and filesystem
//! bytes, zero-padded and truncated.

use vstd::prelude::*;

use crate::IPL_SIZE;
use crate::NUM_WORDS;
use crate::PROGRAM_SIZE;

verus! {

/// Addition modulo 2^32: unsigned 32-bit overflow wraps silently.
pub open spec fn wadd(a: u32, b: u32) -> u32 {
    ((a + b) % 0x1_0000_0000) as u32
}

/// Multiplication modulo 2^32: unsigned 32-bit overflow wraps silently.
pub open spec fn wmul(a: u32, b: u32) -> u32 {
    ((a * b) % 0x1_0000_0000) as u32
}

/// Left rotation of a 32-bit value by `s` bit positions, for `s < 32`.
pub open spec fn rotl(x: u32, s: u32) -> u32
    recommends
        s < 32,
{
    ((((x as u64) << (s as u64)) | ((x as u64) >> ((32 - s) as u64))) & 0xffff_ffff) as u32
}

/// The big-endian 32-bit word formed from four bytes.
pub open spec fn be_word(b0: u8, b1: u8, b2: u8, b3: u8) -> u32 {
    (((b0 as u32) << 24) | ((b1 as u32) << 16) | ((b2 as u32) << 8) | (b3 as u32)) as u32
}

/// Wrapping 32-bit addition.
pub fn wrap_add(a: u32, b: u32) -> (r: u32)
    ensures
        r == wadd(a, b),
{
    proof {
        assert(vstd::wrapping::u32_specs::wrapping_add(a, b) == wadd(a, b));
    }
    a.wrapping_add(b)
}

/// Wrapping 32-bit multiplication.
pub fn wrap_mul(a: u32, b: u32) -> (r: u32)
    ensures
        r == wmul(a, b),
{
    proof {
        assert(vstd::wrapping::u32_specs::wrapping_mul(a, b) == wmul(a, b));
    }
    a.wrapping_mul(b)
}

/// Rotates a 32-bit value left by `s` bit positions.
pub fn rotate(x: u32, s: u32) -> (r: u32)
    requires
        s < 32,
    ensures
        r == rotl(x, s),
{
    let xw: u64 = x as u64;
    (((xw << (s as u64)) | (xw >> ((32 - s) as u64))) & 0xffff_ffff) as u32
}

/// Byte `i` of the logical working stream: the program bytes, one zero pad
/// byte if the program length is odd, the filesystem bytes, then zeroes
/// without end.
pub open spec fn stream_byte(program: Seq<u8>, fs: Seq<u8>, i: int) -> u8 {
    let padded = program.len() + (program.len() % 2);
    if 0 <= i < program.len() {
        program[i]
    } else if i < padded {
        0
    } else if i < padded + fs.len() {
        fs[i - padded]
    } else {
        0
    }
}

/// Word `w` of the working stream: four consecutive stream bytes, big-endian.
pub open spec fn stream_word(program: Seq<u8>, fs: Seq<u8>, w: int) -> u32 {
    be_word(
        stream_byte(program, fs, 4 * w),
        stream_byte(program, fs, 4 * w + 1),
        stream_byte(program, fs, 4 * w + 2),
        stream_byte(program, fs, 4 * w + 3),
    )
}

/// The alternate mixing word consumed at step `w` when a variant draws from
/// its own IPL image: a 64-word window starting at word offset 452, repeating
/// cyclically.
pub open spec fn ipl_table_word(ipl: Seq<u8>, w: int) -> u32
    recommends
        ipl.len() == IPL_SIZE,
{
    let o = 4 * (452 + (w % 64));
    be_word(ipl[o], ipl[o + 1], ipl[o + 2], ipl[o + 3])
}

/// The six 32-bit accumulators of one checksum pass.
pub struct Accs {
    pub a1: u32,
    pub a2: u32,
    pub a3: u32,
    pub a4: u32,
    pub a5: u32,
    pub a6: u32,
}

/// One mixing step: how the accumulators change for the stream word `cur`.
/// `tbl` is the IPL table word for this step, mixed into `a6` only when
/// `use_table` holds; otherwise `a6` mixes with the updated `a4`.
pub open spec fn step(a: Accs, cur: u32, use_table: bool, tbl: u32) -> Accs {
    let rot = rotl(cur, cur & 0x1f);
    let n1 = wadd(a.a1, cur);
    let n2 = if n1 < cur {
        wadd(a.a2, 1)
    } else {
        a.a2
    };
    let n3 = a.a3 ^ cur;
    let n4 = wadd(a.a4, rot);
    let n5 = if a.a5 > cur {
        a.a5 ^ rot
    } else {
        a.a5 ^ (n1 ^ cur)
    };
    let n6 = if use_table {
        wadd(a.a6, cur ^ tbl)
    } else {
        wadd(a.a6, cur ^ n4)
    };
    Accs { a1: n1, a2: n2, a3: n3, a4: n4, a5: n5, a6: n6 }
}

/// The accumulators after the first `n` words of the stream have been mixed,
/// all six starting from `seed`.
pub open spec fn accs_at(
    seed: u32,
    use_table: bool,
    ipl: Seq<u8>,
    program: Seq<u8>,
    fs: Seq<u8>,
    n: int,
) -> Accs
    decreases n,
{
    if n <= 0 {
        Accs { a1: seed, a2: seed, a3: seed, a4: seed, a5: seed, a6: seed }
    } else {
        step(
            accs_at(seed, use_table, ipl, program, fs, n - 1),
            stream_word(program, fs, n - 1),
            use_table,
            ipl_table_word(ipl, n - 1),
        )
    }
}

/// Materializes the first `PROGRAM_SIZE` bytes of the working stream.
pub fn build_stream(program: &[u8], fs: &[u8]) -> (buf: Vec<u8>)
    ensures
        buf@.len() == PROGRAM_SIZE,
        forall|i: int| 0 <= i < PROGRAM_SIZE ==> buf@[i] == stream_byte(program@, fs@, i),
{
    let plen = program.len();
    let pad: usize = plen % 2;
    let mut buf: Vec<u8> = Vec::with_capacity(PROGRAM_SIZE);
    let mut i: usize = 0;
    while i < PROGRAM_SIZE
        invariant
            buf@.len() == i,
            i <= PROGRAM_SIZE,
            plen == program@.len(),
            pad == plen % 2,
            forall|j: int| 0 <= j < i ==> buf@[j] == stream_byte(program@, fs@, j),
        decreases PROGRAM_SIZE - i,
    {
        let b: u8 = if i < plen {
            program[i]
        } else {
            let padded = plen + pad;
            if i < padded {
                0
            } else {
                let off = i - padded;
                if off < fs.len() {
                    fs[off]
                } else {
                    0
                }
            }
        };
        buf.push(b);
        i = i + 1;
    }
    buf
}

/// Runs the six-accumulator mixing pass over the whole checksum window.
pub fn run_accumulators(seed: u32, use_table: bool, ipl: &Vec<u8>, program: &[u8], fs: &[u8]) -> (r:
    Accs)
    requires
        ipl@.len() == IPL_SIZE,
    ensures
        r == accs_at(seed, use_table, ipl@, program@, fs@, NUM_WORDS as int),
{
    let buf = build_stream(program, fs);
    let mut a1 = seed;
    let mut a2 = seed;
    let mut a3 = seed;
    let mut a4 = seed;
    let mut a5 = seed;
    let mut a6 = seed;
    let mut w: usize = 0;
    while w < NUM_WORDS
        invariant
            w <= NUM_WORDS,
            buf@.len() == PROGRAM_SIZE,
            forall|i: int| 0 <= i < PROGRAM_SIZE ==> buf@[i] == stream_byte(program@, fs@, i),
            ipl@.len() == IPL_SIZE,
            a1 == accs_at(seed, use_table, ipl@, program@, fs@, w as int).a1,
            a2 == accs_at(seed, use_table, ipl@, program@, fs@, w as int).a2,
            a3 == accs_at(seed, use_table, ipl@, program@, fs@, w as int).a3,
            a4 == accs_at(seed, use_table, ipl@, program@, fs@, w as int).a4,
            a5 == accs_at(seed, use_table, ipl@, program@, fs@, w as int).a5,
            a6 == accs_at(seed, use_table, ipl@, program@, fs@, w as int).a6,
        decreases NUM_WORDS - w,
    {
        let cur = be_word_exec(buf[4 * w], buf[4 * w + 1], buf[4 * w + 2], buf[4 * w + 3]);
        assert(cur == stream_word(program@, fs@, w as int));
        let s = cur & 0x1f;
        assert(s < 32) by (bit_vector)
            requires
                s == cur & 0x1f,
        ;
        let rot = rotate(cur, s);
        a1 = wrap_add(a1, cur);
        if a1 < cur {
            a2 = wrap_add(a2, 1);
        }
        a3 = a3 ^ cur;
        a4 = wrap_add(a4, rot);
        if a5 > cur {
            a5 = a5 ^ rot;
        } else {
            a5 = a5 ^ (a1 ^ cur);
        }
        if use_table {
            let o = 4 * (452 + (w % 64));
            let tbl = be_word_exec(ipl[o], ipl[o + 1], ipl[o + 2], ipl[o + 3]);
            assert(tbl == ipl_table_word(ipl@, w as int));
            a6 = wrap_add(a6, cur ^ tbl);
        } else {
            a6 = wrap_add(a6, cur ^ a4);
        }
        w = w + 1;
    }
    Accs { a1, a2, a3, a4, a5, a6 }
}

/// Forms a big-endian 32-bit word from four bytes.
pub fn be_word_exec(b0: u8, b1: u8, b2: u8, b3: u8) -> (r: u32)
    ensures
        r == be_word(b0, b1, b2, b3),
{
    (((b0 as u32) << 24) | ((b1 as u32) << 16) | ((b2 as u32) << 8) | (b3 as u32)) as u32
}

} // verus!
