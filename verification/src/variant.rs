//! The closed set of known boot-security chip variants, identification of a
//! variant from its IPL image, and the per-variant checksum and entry-point
//! rules.

use vstd::prelude::*;

use crate::checksum;
use crate::checksum::accs_at;
use crate::checksum::wadd;
use crate::checksum::wmul;
use crate::hash::crc32;
use crate::hash::crc32_of;
use crate::IPL_SIZE;
use crate::NUM_WORDS;

verus! {

/// Errors surfaced while loading an IPL image from storage. The checksum and
/// identification operations themselves have no failure path.
#[derive(Debug)]
pub enum CICError {
    IOError(String),
    CICReadError(String),
}

/// A chip variant: one of six known identities, or `UNKNOWN`. Each value owns
/// the 4032-byte IPL image it was identified from.
pub enum CIC {
    CIC6101(Vec<u8>),
    CIC6102(Vec<u8>),
    CIC6103(Vec<u8>),
    CIC6105(Vec<u8>),
    CIC6106(Vec<u8>),
    CIC7102(Vec<u8>),
    UNKNOWN(Vec<u8>),
}

/// The bare identity of a variant, without its IPL buffer.
#[derive(Clone, Copy, Debug, PartialEq, Eq, Structural)]
pub enum Tag {
    Cic6101,
    Cic6102,
    Cic6103,
    Cic6105,
    Cic6106,
    Cic7102,
    Unknown,
}

/// The variant a given IPL content hash resolves to: six known hash values,
/// every other hash `Unknown`.
pub open spec fn tag_for_hash(h: u32) -> Tag {
    if h == 0x6170a4a1 {
        Tag::Cic6101
    } else if h == 0x90bb6cb5 {
        Tag::Cic6102
    } else if h == 0x0b050ee0 {
        Tag::Cic6103
    } else if h == 0x98bc2c86 {
        Tag::Cic6105
    } else if h == 0xacc8580a {
        Tag::Cic6106
    } else if h == 0x009e9ea3 {
        Tag::Cic7102
    } else {
        Tag::Unknown
    }
}

impl CIC {
    pub open spec fn spec_tag(self) -> Tag {
        match self {
            CIC::CIC6101(_) => Tag::Cic6101,
            CIC::CIC6102(_) => Tag::Cic6102,
            CIC::CIC6103(_) => Tag::Cic6103,
            CIC::CIC6105(_) => Tag::Cic6105,
            CIC::CIC6106(_) => Tag::Cic6106,
            CIC::CIC7102(_) => Tag::Cic7102,
            CIC::UNKNOWN(_) => Tag::Unknown,
        }
    }

    pub open spec fn spec_ipl(self) -> Seq<u8> {
        match self {
            CIC::CIC6101(b) => b@,
            CIC::CIC6102(b) => b@,
            CIC::CIC6103(b) => b@,
            CIC::CIC6105(b) => b@,
            CIC::CIC6106(b) => b@,
            CIC::CIC7102(b) => b@,
            CIC::UNKNOWN(b) => b@,
        }
    }

    /// A variant is well formed when it holds a full-size IPL image.
    pub open spec fn wf(self) -> bool {
        self.spec_ipl().len() == IPL_SIZE
    }

    /// The value all six accumulators start from.
    pub open spec fn seed(self) -> u32 {
        match self {
            CIC::CIC6103(_) => 0xa3886759,
            CIC::CIC6105(_) => 0xdf26f436,
            CIC::CIC6106(_) => 0x1fea617a,
            _ => 0xf8ca4ddc,
        }
    }

    /// Whether the sixth accumulator mixes with words drawn from the
    /// variant's own IPL image instead of the fourth accumulator.
    pub open spec fn uses_ipl_table(self) -> bool {
        self is CIC6105
    }

    /// The additive adjustment this variant applies to a boot entry point.
    pub open spec fn entry_offset(self) -> u32 {
        match self {
            CIC::CIC6103(_) => 0x0010_0000,
            CIC::CIC6106(_) => 0x0020_0000,
            _ => 0,
        }
    }

    /// The pair of checksums this variant's algorithm assigns to a program
    /// and filesystem image: the accumulators after the full mixing pass,
    /// folded by the variant's combination rule.
    pub open spec fn spec_crcs(self, program: Seq<u8>, fs: Seq<u8>) -> (u32, u32) {
        let a = accs_at(
            self.seed(),
            self.uses_ipl_table(),
            self.spec_ipl(),
            program,
            fs,
            NUM_WORDS as int,
        );
        match self {
            CIC::CIC6103(_) => (wadd(a.a1 ^ a.a2, a.a3), wadd(a.a4 ^ a.a5, a.a6)),
            CIC::CIC6106(_) => (wadd(wmul(a.a1, a.a2), a.a3), wadd(wmul(a.a4, a.a5), a.a6)),
            _ => (a.a1 ^ a.a2 ^ a.a3, a.a4 ^ a.a5 ^ a.a6),
        }
    }

    /// The variant's human-readable label.
    pub open spec fn spec_name(self) -> Seq<char> {
        match self {
            CIC::CIC6101(_) => "NUS-CIC-6101"@,
            CIC::CIC6102(_) => "NUS-CIC-6102"@,
            CIC::CIC6103(_) => "NUS-CIC-6103"@,
            CIC::CIC6105(_) => "NUS-CIC-6105"@,
            CIC::CIC6106(_) => "NUS-CIC-6106"@,
            CIC::CIC7102(_) => "NUS-CIC-7102"@,
            CIC::UNKNOWN(_) => "Unknown"@,
        }
    }

    /// Wraps an already-hashed IPL image in the variant its content hash
    /// resolves to.
    pub fn from_hash(hash: u32, ipl: Vec<u8>) -> (c: CIC)
        ensures
            c.spec_tag() == tag_for_hash(hash),
            c.spec_ipl() == ipl@,
    {
        if hash == 0x6170a4a1 {
            CIC::CIC6101(ipl)
        } else if hash == 0x90bb6cb5 {
            CIC::CIC6102(ipl)
        } else if hash == 0x0b050ee0 {
            CIC::CIC6103(ipl)
        } else if hash == 0x98bc2c86 {
            CIC::CIC6105(ipl)
        } else if hash == 0xacc8580a {
            CIC::CIC6106(ipl)
        } else if hash == 0x009e9ea3 {
            CIC::CIC7102(ipl)
        } else {
            CIC::UNKNOWN(ipl)
        }
    }

    /// Identifies the variant that produced an IPL image by its CRC-32
    /// content hash; an unrecognized hash yields `UNKNOWN`. The input buffer
    /// is kept, unchanged, inside the result.
    pub fn identify(ipl: Vec<u8>) -> (c: CIC)
        requires
            ipl@.len() == IPL_SIZE,
        ensures
            c.spec_tag() == tag_for_hash(crc32_of(ipl@)),
            c.spec_ipl() == ipl@,
            c.wf(),
    {
        let h = crc32(ipl.as_slice());
        CIC::from_hash(h, ipl)
    }

    /// The bare identity of this variant.
    pub fn tag(&self) -> (t: Tag)
        ensures
            t == self.spec_tag(),
    {
        match self {
            CIC::CIC6101(_) => Tag::Cic6101,
            CIC::CIC6102(_) => Tag::Cic6102,
            CIC::CIC6103(_) => Tag::Cic6103,
            CIC::CIC6105(_) => Tag::Cic6105,
            CIC::CIC6106(_) => Tag::Cic6106,
            CIC::CIC7102(_) => Tag::Cic7102,
            CIC::UNKNOWN(_) => Tag::Unknown,
        }
    }

    /// The variant's IPL image, read-only.
    pub fn get_ipl(&self) -> (r: &Vec<u8>)
        ensures
            r@ == self.spec_ipl(),
    {
        match self {
            CIC::CIC6101(bin) => bin,
            CIC::CIC6102(bin) => bin,
            CIC::CIC6103(bin) => bin,
            CIC::CIC6105(bin) => bin,
            CIC::CIC6106(bin) => bin,
            CIC::CIC7102(bin) => bin,
            CIC::UNKNOWN(bin) => bin,
        }
    }

    /// The variant's human-readable label.
    pub fn name(&self) -> (r: &'static str)
        ensures
            r@ == self.spec_name(),
    {
        match self {
            CIC::CIC6101(_) => "NUS-CIC-6101",
            CIC::CIC6102(_) => "NUS-CIC-6102",
            CIC::CIC6103(_) => "NUS-CIC-6103",
            CIC::CIC6105(_) => "NUS-CIC-6105",
            CIC::CIC6106(_) => "NUS-CIC-6106",
            CIC::CIC7102(_) => "NUS-CIC-7102",
            CIC::UNKNOWN(_) => "Unknown",
        }
    }

    /// Computes the two checksum words the boot ROM expects for `program`
    /// and `fs` under this variant's algorithm.
    pub fn compute_crcs(&self, program: &[u8], fs: &[u8]) -> (r: (u32, u32))
        requires
            self.wf(),
        ensures
            r == self.spec_crcs(program@, fs@),
    {
        let seed: u32 = match self {
            CIC::CIC6103(_) => 0xa3886759,
            CIC::CIC6105(_) => 0xdf26f436,
            CIC::CIC6106(_) => 0x1fea617a,
            _ => 0xf8ca4ddc,
        };
        let use_table = matches!(self, CIC::CIC6105(_));
        let a = checksum::run_accumulators(seed, use_table, self.get_ipl(), program, fs);
        match self {
            CIC::CIC6103(_) => (
                checksum::wrap_add(a.a1 ^ a.a2, a.a3),
                checksum::wrap_add(a.a4 ^ a.a5, a.a6),
            ),
            CIC::CIC6106(_) => (
                checksum::wrap_add(checksum::wrap_mul(a.a1, a.a2), a.a3),
                checksum::wrap_add(checksum::wrap_mul(a.a4, a.a5), a.a6),
            ),
            _ => (a.a1 ^ a.a2 ^ a.a3, a.a4 ^ a.a5 ^ a.a6),
        }
    }

    /// Adjusts a boot entry-point address by this variant's additive offset,
    /// wrapping modulo 2^32.
    pub fn offset(&self, entry_point: u32) -> (r: u32)
        ensures
            r == wadd(entry_point, self.entry_offset()),
    {
        let off: u32 = match self {
            CIC::CIC6103(_) => 0x0010_0000,
            CIC::CIC6106(_) => 0x0020_0000,
            _ => 0,
        };
        checksum::wrap_add(entry_point, off)
    }
}

} // verus!
