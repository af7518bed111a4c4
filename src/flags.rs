use vstd::prelude::*;

verus! {

/// Turn on debugging output.
pub const DEBUG: i32 = 0x0000001;

/// Follow symbolic links.
pub const SYMLINK: i32 = 0x0000002;

/// Look inside compressed files.
pub const COMPRESS: i32 = 0x0000004;

/// Look at the contents of block and character devices.
pub const DEVICES: i32 = 0x0000008;

/// Report the MIME type instead of a description.
pub const MIME_TYPE: i32 = 0x0000010;

/// Report every match, not only the first.
pub const CONTINUE: i32 = 0x0000020;

/// Check the loaded databases for consistency and print warnings.
pub const CHECK: i32 = 0x0000040;

/// Restore the access time of examined files.
pub const PRESERVE_ATIME: i32 = 0x0000080;

/// Do not translate unprintable characters.
pub const RAW: i32 = 0x0000100;

/// Treat operating-system errors while examining a file as real errors.
pub const ERROR: i32 = 0x0000200;

/// Report the MIME encoding instead of a description.
pub const MIME_ENCODING: i32 = 0x0000400;

/// Report the MIME type and the MIME encoding.
pub const MIME: i32 = MIME_TYPE | MIME_ENCODING;

/// Report the Apple creator and type.
pub const APPLE: i32 = 0x0000800;

/// Report a list of usual file name extensions.
pub const EXTENSION: i32 = 0x1000000;

/// Look inside compressed files, but report only the contents.
pub const COMPRESS_TRANSP: i32 = 0x2000000;

/// Report no description at all: only extensions, MIME data or Apple data.
pub const NODESC: i32 = EXTENSION | MIME | APPLE;

/// Skip the built-in test for compressed files.
pub const NO_CHECK_COMPRESS: i32 = 0x0001000;

/// Skip the built-in test for tar archives.
pub const NO_CHECK_TAR: i32 = 0x0002000;

/// Skip the signatures of the loaded databases.
pub const NO_CHECK_SOFT: i32 = 0x0004000;

/// Skip the built-in test for application types.
pub const NO_CHECK_APPTYPE: i32 = 0x0008000;

/// Skip the built-in details of ELF files.
pub const NO_CHECK_ELF: i32 = 0x0010000;

/// Skip the built-in test for text files.
pub const NO_CHECK_TEXT: i32 = 0x0020000;

/// Skip the built-in test for CDF documents.
pub const NO_CHECK_CDF: i32 = 0x0040000;

/// Skip the built-in test for CSV files.
pub const NO_CHECK_CSV: i32 = 0x0080000;

/// Skip the built-in test for known tokens in text files.
pub const NO_CHECK_TOKENS: i32 = 0x0100000;

/// Skip the built-in test for text encodings.
pub const NO_CHECK_ENCODING: i32 = 0x0200000;

/// Skip the built-in test for JSON files.
pub const NO_CHECK_JSON: i32 = 0x0400000;

/// Skip every built-in test: consult the loaded databases only.
pub const NO_CHECK_BUILTIN: i32 = NO_CHECK_COMPRESS | NO_CHECK_TAR | NO_CHECK_APPTYPE
    | NO_CHECK_ELF | NO_CHECK_TEXT | NO_CHECK_CSV | NO_CHECK_CDF | NO_CHECK_TOKENS
    | NO_CHECK_ENCODING | NO_CHECK_JSON;

/// A set of configuration bits for the analysis engine.
///
/// Every bit pattern is a valid set: bits without a name above are kept as they
/// are and handed to the engine, which decides whether it supports them.
#[derive(Clone, Copy, Debug, PartialEq, Eq, Structural)]
pub struct Flags {
    bits: i32,
}

impl Flags {
    /// The bits of the set.
    pub closed spec fn spec_bits(self) -> i32 {
        self.bits
    }

    /// The set that holds exactly `bits`.
    pub closed spec fn spec_from_bits(bits: i32) -> Flags {
        Flags { bits }
    }

    /// The set with no bit: no special handling.
    pub open spec fn spec_empty() -> Flags {
        Flags::spec_from_bits(0)
    }

    /// The union of two sets.
    pub open spec fn spec_union(self, other: Flags) -> Flags {
        Flags::spec_from_bits(self.spec_bits() | other.spec_bits())
    }

    /// Whether every bit of `other` is in this set.
    pub open spec fn spec_contains(self, other: Flags) -> bool {
        self.spec_bits() & other.spec_bits() == other.spec_bits()
    }

    pub fn empty() -> (r: Flags)
        ensures
            r == Flags::spec_empty(),
            r.spec_bits() == 0,
    {
        Flags { bits: 0 }
    }

    pub fn from_bits_retain(bits: i32) -> (r: Flags)
        ensures
            r == Flags::spec_from_bits(bits),
            r.spec_bits() == bits,
    {
        Flags { bits }
    }

    pub fn bits(&self) -> (r: i32)
        ensures
            r == self.spec_bits(),
    {
        self.bits
    }

    pub fn union(self, other: Flags) -> (r: Flags)
        ensures
            r == self.spec_union(other),
            r.spec_bits() == self.spec_bits() | other.spec_bits(),
    {
        Flags { bits: self.bits | other.bits }
    }

    pub fn contains(&self, other: Flags) -> (r: bool)
        ensures
            r == self.spec_contains(other),
    {
        self.bits & other.bits == other.bits
    }

    pub fn is_empty(&self) -> (r: bool)
        ensures
            r == (self.spec_bits() == 0),
    {
        self.bits == 0
    }
}

impl core::ops::BitOr for Flags {
    type Output = Flags;

    fn bitor(self, rhs: Flags) -> (r: Flags)
        ensures
            r == self.spec_union(rhs),
            r.spec_bits() == self.spec_bits() | rhs.spec_bits(),
    {
        self.union(rhs)
    }
}

impl vstd::std_specs::ops::BitOrSpecImpl for Flags {
    open spec fn obeys_bitor_spec() -> bool {
        true
    }

    open spec fn bitor_req(self, rhs: Flags) -> bool {
        true
    }

    open spec fn bitor_spec(self, rhs: Flags) -> Flags {
        self.spec_union(rhs)
    }
}

impl Default for Flags {
    fn default() -> (r: Flags)
        ensures
            r == Flags::spec_empty(),
    {
        Flags::empty()
    }
}

/// Union of flag sets is commutative, associative and idempotent, and the empty
/// set (which is also the default set) is its identity.
pub proof fn lemma_union_laws(a: Flags, b: Flags, c: Flags)
    ensures
        a.spec_union(b) == b.spec_union(a),
        a.spec_union(b).spec_union(b) == a.spec_union(b),
        a.spec_union(b).spec_union(c) == a.spec_union(b.spec_union(c)),
        a.spec_union(a) == a,
        Flags::spec_empty().spec_union(a) == a,
        a.spec_union(b).spec_contains(a) && a.spec_union(b).spec_contains(b),
{
    let x = a.bits;
    let y = b.bits;
    let z = c.bits;
    assert(x | y == y | x) by (bit_vector);
    assert((x | y) | y == x | y) by (bit_vector);
    assert((x | y) | z == x | (y | z)) by (bit_vector);
    assert(x | x == x) by (bit_vector);
    assert(0i32 | x == x) by (bit_vector);
    assert((x | y) & x == x && (x | y) & y == y) by (bit_vector);
}

} // verus!
