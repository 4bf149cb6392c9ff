//! Properties of the checksum engine and the identification rule that hold
//! across calls, stated and proved over the specification model.

use vstd::prelude::*;

use crate::checksum::accs_at;
use crate::checksum::stream_byte;
use crate::checksum::stream_word;
use crate::checksum::wadd;
use crate::checksum::wmul;
use crate::variant::tag_for_hash;
use crate::variant::Tag;
use crate::CIC;
use crate::NUM_WORDS;
use crate::PROGRAM_SIZE;

verus! {

/// Two checksum computations over the same variant, program and filesystem
/// agree: the result is a pure function of those inputs.
pub proof fn lemma_deterministic(c: CIC, program: Seq<u8>, fs: Seq<u8>, r1: (u32, u32), r2: (u32, u32))
    requires
        r1 == c.spec_crcs(program, fs),
        r2 == c.spec_crcs(program, fs),
    ensures
        r1 == r2,
{
}

proof fn lemma_accs_agree(
    seed: u32,
    use_table: bool,
    ipl: Seq<u8>,
    p1: Seq<u8>,
    f1: Seq<u8>,
    p2: Seq<u8>,
    f2: Seq<u8>,
    n: int,
)
    requires
        forall|w: int| 0 <= w < n ==> stream_word(p1, f1, w) == stream_word(p2, f2, w),
    ensures
        accs_at(seed, use_table, ipl, p1, f1, n) == accs_at(seed, use_table, ipl, p2, f2, n),
    decreases n,
{
    if n > 0 {
        lemma_accs_agree(seed, use_table, ipl, p1, f1, p2, f2, n - 1);
    }
}

proof fn lemma_accs_ignore_ipl(
    seed: u32,
    ipl1: Seq<u8>,
    ipl2: Seq<u8>,
    program: Seq<u8>,
    fs: Seq<u8>,
    n: int,
)
    ensures
        accs_at(seed, false, ipl1, program, fs, n) == accs_at(seed, false, ipl2, program, fs, n),
    decreases n,
{
    if n > 0 {
        lemma_accs_ignore_ipl(seed, ipl1, ipl2, program, fs, n - 1);
    }
}

/// The checksums see only the first `PROGRAM_SIZE` bytes of the working
/// stream: two pairs of inputs whose padded, zero-filled streams agree on
/// that window get the same checksums, whatever lies beyond it.
pub proof fn lemma_truncation(c: CIC, p1: Seq<u8>, f1: Seq<u8>, p2: Seq<u8>, f2: Seq<u8>)
    requires
        forall|i: int| 0 <= i < PROGRAM_SIZE ==> stream_byte(p1, f1, i) == stream_byte(p2, f2, i),
    ensures
        c.spec_crcs(p1, f1) == c.spec_crcs(p2, f2),
{
    assert forall|w: int| 0 <= w < NUM_WORDS implies stream_word(p1, f1, w) == stream_word(
        p2,
        f2,
        w,
    ) by {
        assert(stream_byte(p1, f1, 4 * w) == stream_byte(p2, f2, 4 * w));
        assert(stream_byte(p1, f1, 4 * w + 1) == stream_byte(p2, f2, 4 * w + 1));
        assert(stream_byte(p1, f1, 4 * w + 2) == stream_byte(p2, f2, 4 * w + 2));
        assert(stream_byte(p1, f1, 4 * w + 3) == stream_byte(p2, f2, 4 * w + 3));
    }
    lemma_accs_agree(
        c.seed(),
        c.uses_ipl_table(),
        c.spec_ipl(),
        p1,
        f1,
        p2,
        f2,
        NUM_WORDS as int,
    );
}

/// Padding invariance: for an odd-length program, the engine inserts a
/// single zero byte before the filesystem, so the checksums equal those of
/// the explicitly zero-padded, even-length program.
pub proof fn lemma_padding_invariance(c: CIC, program: Seq<u8>, fs: Seq<u8>)
    requires
        program.len() % 2 == 1,
    ensures
        c.spec_crcs(program, fs) == c.spec_crcs(program.push(0), fs),
{
    let p2 = program.push(0);
    assert(p2.len() == program.len() + 1);
    assert forall|i: int| 0 <= i < PROGRAM_SIZE implies stream_byte(program, fs, i) == stream_byte(
        p2,
        fs,
        i,
    ) by {
        if i < program.len() {
            assert(p2[i] == program[i]);
        } else if i == program.len() {
            assert(p2[i] == 0);
        }
    }
    lemma_truncation(c, program, fs, p2, fs);
}

/// A concrete reading of the truncation rule: once the program alone fills
/// the whole checksum window, everything past the window — the rest of the
/// program and any filesystem bytes — is invisible to the checksums.
pub proof fn lemma_window_fills(c: CIC, program: Seq<u8>, fs: Seq<u8>)
    requires
        program.len() >= PROGRAM_SIZE,
    ensures
        c.spec_crcs(program, fs) == c.spec_crcs(
            program.take(PROGRAM_SIZE as int),
            Seq::<u8>::empty(),
        ),
{
    let front = program.take(PROGRAM_SIZE as int);
    assert forall|i: int| 0 <= i < PROGRAM_SIZE implies stream_byte(program, fs, i) == stream_byte(
        front,
        Seq::<u8>::empty(),
        i,
    ) by {
        assert(front[i] == program[i]);
    }
    lemma_truncation(c, program, fs, front, Seq::<u8>::empty());
}

/// The checksums are a function of the variant's tag, the program and the
/// filesystem alone, unless the variant mixes with its own IPL table: two
/// variants with the same tag that do not use the table agree on every
/// input, whatever their IPL images hold.
pub proof fn lemma_ipl_blind_without_table(c1: CIC, c2: CIC, program: Seq<u8>, fs: Seq<u8>)
    requires
        c1.spec_tag() == c2.spec_tag(),
        !c1.uses_ipl_table(),
    ensures
        c1.spec_crcs(program, fs) == c2.spec_crcs(program, fs),
{
    lemma_accs_ignore_ipl(c1.seed(), c1.spec_ipl(), c2.spec_ipl(), program, fs, NUM_WORDS as int);
}

/// Identification totality: every content hash other than the six known
/// values resolves to the `Unknown` variant.
pub proof fn lemma_unknown_hash(h: u32)
    requires
        h != 0x6170a4a1,
        h != 0x90bb6cb5,
        h != 0x0b050ee0,
        h != 0x98bc2c86,
        h != 0xacc8580a,
        h != 0x009e9ea3,
    ensures
        tag_for_hash(h) == Tag::Unknown,
{
}

/// Accumulator arithmetic wraps modulo 2^32: additions and multiplications
/// never widen and never fail, whatever the operands.
pub proof fn lemma_wraparound(a: u32, b: u32)
    ensures
        wadd(a, b) == ((a + b) % 0x1_0000_0000) as u32,
        wmul(a, b) == ((a * b) % 0x1_0000_0000) as u32,
        a + b >= 0x1_0000_0000 ==> wadd(a, b) == a + b - 0x1_0000_0000,
        a + b < 0x1_0000_0000 ==> wadd(a, b) == a + b,
{
}

} // verus!
