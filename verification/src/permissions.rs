//! The permissions of a document, as a set of flags held in the bits of an
//! integer.

use crate::text::{join, join_strs, str_texts};
use vstd::prelude::*;

verus! {

/// The bit of the flag that allows printing.
pub const PRINT_DOCUMENT_BIT: i32 = 0x004;

/// The bit of the flag that allows modifying content, except forms and
/// annotations.
pub const MODIFY_CONTENT_BIT: i32 = 0x008;

/// The bit of the flag that allows copying and extracting text and graphics.
pub const EXTRACT_CONTENT_BIT: i32 = 0x010;

/// The bit of the flag that allows adding and modifying text annotations.
pub const MODIFY_TEXT_ANNOTATIONS_BIT: i32 = 0x020;

/// The bit of the flag that allows filling interactive forms.
pub const FILL_FORM_BIT: i32 = 0x100;

/// The bit of the flag that allows content extraction for accessibility.
pub const EXTRACT_CONTENT_WITH_DISABILITIES_BIT: i32 = 0x200;

/// The bit of the flag that allows inserting, rotating and deleting pages.
pub const ASSEMBLE_DOCUMENT_BIT: i32 = 0x400;

/// The bit of the flag that allows high-quality printing.
pub const PRINTING_QUALITY_BIT: i32 = 0x800;

/// The bits of all the flags together.
pub const ALL_BITS: i32 = 0xF3C;

/// How many flags there are.
pub const FLAG_COUNT: usize = 8;

/// The bit of the flag at place `k`, in the order in which the flags are
/// listed.
pub open spec fn flag_bit(k: int) -> i32 {
    if k == 0 {
        PRINT_DOCUMENT_BIT
    } else if k == 1 {
        MODIFY_CONTENT_BIT
    } else if k == 2 {
        EXTRACT_CONTENT_BIT
    } else if k == 3 {
        MODIFY_TEXT_ANNOTATIONS_BIT
    } else if k == 4 {
        FILL_FORM_BIT
    } else if k == 5 {
        EXTRACT_CONTENT_WITH_DISABILITIES_BIT
    } else if k == 6 {
        ASSEMBLE_DOCUMENT_BIT
    } else {
        PRINTING_QUALITY_BIT
    }
}

/// What the flag at place `k` allows, in words.
pub open spec fn flag_description(k: int) -> Seq<char> {
    if k == 0 {
        "Allow printing"@
    } else if k == 1 {
        "Allow modifying content (except forms/annotations)"@
    } else if k == 2 {
        "Allow copying/extracting text and graphics"@
    } else if k == 3 {
        "Allow adding/modifying text annotations"@
    } else if k == 4 {
        "Allow filling interactive forms"@
    } else if k == 5 {
        "Allow content extraction for accessibility"@
    } else if k == 6 {
        "Allow inserting/rotating/deleting pages or changing structure"@
    } else {
        "Allow high-quality / faithful printing"@
    }
}

/// The name of the flag at place `k`.
pub open spec fn flag_name(k: int) -> Seq<char> {
    if k == 0 {
        "PRINT_DOCUMENT"@
    } else if k == 1 {
        "MODIFY_CONTENT"@
    } else if k == 2 {
        "EXTRACT_CONTENT"@
    } else if k == 3 {
        "MODIFY_TEXT_ANNOTATIONS"@
    } else if k == 4 {
        "FILL_FORM"@
    } else if k == 5 {
        "EXTRACT_CONTENT_WITH_DISABILITIES"@
    } else if k == 6 {
        "ASSEMBLE_DOCUMENT"@
    } else {
        "PRINTING_QUALITY"@
    }
}

/// Whether the flag at place `k` is set in `bits`.
pub open spec fn has_flag(bits: i32, k: int) -> bool {
    bits & flag_bit(k) == flag_bit(k)
}

/// The descriptions of the flags set in `bits`, among the first `n` flags,
/// in the order of the flags.
pub open spec fn descriptions(bits: i32, n: int) -> Seq<Seq<char>>
    decreases n,
{
    if n <= 0 {
        Seq::<Seq<char>>::empty()
    } else if has_flag(bits, n - 1) {
        descriptions(bits, n - 1).push(flag_description(n - 1))
    } else {
        descriptions(bits, n - 1)
    }
}

/// The names of the flags set in `bits`, among the first `n` flags, in the
/// order of the flags.
pub open spec fn names(bits: i32, n: int) -> Seq<Seq<char>>
    decreases n,
{
    if n <= 0 {
        Seq::<Seq<char>>::empty()
    } else if has_flag(bits, n - 1) {
        names(bits, n - 1).push(flag_name(n - 1))
    } else {
        names(bits, n - 1)
    }
}

/// The text that describes the flags set in `bits`: their descriptions with
/// a comma and a space between them, or `No permissions` where none is set.
pub open spec fn display_text(bits: i32) -> Seq<char> {
    let parts = descriptions(bits, FLAG_COUNT as int);
    if parts.len() == 0 {
        "No permissions"@
    } else {
        join(parts, ", "@)
    }
}

/// The text that names the flags set in `bits`, between braces and with a
/// bar between them.
pub open spec fn debug_text(bits: i32) -> Seq<char> {
    "Permissions { "@ + join(names(bits, FLAG_COUNT as int), " | "@) + " }"@
}

/// The bit of the flag at place `k`.
fn flag_bit_at(k: usize) -> (b: i32)
    requires
        k < FLAG_COUNT,
    ensures
        b == flag_bit(k as int),
{
    if k == 0 {
        PRINT_DOCUMENT_BIT
    } else if k == 1 {
        MODIFY_CONTENT_BIT
    } else if k == 2 {
        EXTRACT_CONTENT_BIT
    } else if k == 3 {
        MODIFY_TEXT_ANNOTATIONS_BIT
    } else if k == 4 {
        FILL_FORM_BIT
    } else if k == 5 {
        EXTRACT_CONTENT_WITH_DISABILITIES_BIT
    } else if k == 6 {
        ASSEMBLE_DOCUMENT_BIT
    } else {
        PRINTING_QUALITY_BIT
    }
}

/// What the flag at place `k` allows, in words.
fn flag_description_at(k: usize) -> (s: &'static str)
    requires
        k < FLAG_COUNT,
    ensures
        s@ == flag_description(k as int),
{
    if k == 0 {
        "Allow printing"
    } else if k == 1 {
        "Allow modifying content (except forms/annotations)"
    } else if k == 2 {
        "Allow copying/extracting text and graphics"
    } else if k == 3 {
        "Allow adding/modifying text annotations"
    } else if k == 4 {
        "Allow filling interactive forms"
    } else if k == 5 {
        "Allow content extraction for accessibility"
    } else if k == 6 {
        "Allow inserting/rotating/deleting pages or changing structure"
    } else {
        "Allow high-quality / faithful printing"
    }
}

/// The name of the flag at place `k`.
fn flag_name_at(k: usize) -> (s: &'static str)
    requires
        k < FLAG_COUNT,
    ensures
        s@ == flag_name(k as int),
{
    if k == 0 {
        "PRINT_DOCUMENT"
    } else if k == 1 {
        "MODIFY_CONTENT"
    } else if k == 2 {
        "EXTRACT_CONTENT"
    } else if k == 3 {
        "MODIFY_TEXT_ANNOTATIONS"
    } else if k == 4 {
        "FILL_FORM"
    } else if k == 5 {
        "EXTRACT_CONTENT_WITH_DISABILITIES"
    } else if k == 6 {
        "ASSEMBLE_DOCUMENT"
    } else {
        "PRINTING_QUALITY"
    }
}

/// Bitflag set representing PDF permission capabilities. It holds no bit
/// but those of its eight flags.
#[derive(Clone, Copy, Debug, PartialEq, Eq, Structural)]
pub struct Permissions {
    bits: i32,
}

impl Permissions {
    /// No bit is set but those of the eight flags.
    #[verifier::type_invariant]
    pub closed spec fn known_bits_only(self) -> bool {
        self.bits & !ALL_BITS == 0
    }

    /// The bits of this set.
    pub closed spec fn spec_bits(&self) -> i32 {
        self.bits
    }

    /// The bits of this set.
    #[verifier::when_used_as_spec(spec_bits)]
    pub fn bits(&self) -> (b: i32)
        ensures
            b == self.spec_bits(),
            b & !ALL_BITS == 0,
    {
        proof {
            use_type_invariant(self);
        }
        self.bits
    }

    /// The set with no flag.
    pub fn empty() -> (p: Permissions)
        ensures
            p.bits() == 0,
    {
        assert(0i32 & !ALL_BITS == 0) by (bit_vector);
        Permissions { bits: 0 }
    }

    /// The set with every flag.
    pub fn all() -> (p: Permissions)
        ensures
            p.bits() == ALL_BITS,
    {
        assert(ALL_BITS & !ALL_BITS == 0) by (bit_vector);
        Permissions { bits: ALL_BITS }
    }

    /// The set whose flags are those whose bit is set in `bits`; any other
    /// bit of `bits` is dropped.
    pub fn from_bits_truncate(bits: i32) -> (p: Permissions)
        ensures
            p.bits() == bits & ALL_BITS,
    {
        assert((bits & ALL_BITS) & !ALL_BITS == 0) by (bit_vector);
        Permissions { bits: bits & ALL_BITS }
    }

    /// The flag that allows printing.
    pub fn print_document() -> (p: Permissions)
        ensures
            p.bits() == PRINT_DOCUMENT_BIT,
    {
        proof {
            lemma_flag_bits_known();
        }
        Permissions::from_bits_truncate(PRINT_DOCUMENT_BIT)
    }

    /// The flag that allows modifying content, except forms and annotations.
    pub fn modify_content() -> (p: Permissions)
        ensures
            p.bits() == MODIFY_CONTENT_BIT,
    {
        proof {
            lemma_flag_bits_known();
        }
        Permissions::from_bits_truncate(MODIFY_CONTENT_BIT)
    }

    /// The flag that allows copying and extracting text and graphics.
    pub fn extract_content() -> (p: Permissions)
        ensures
            p.bits() == EXTRACT_CONTENT_BIT,
    {
        proof {
            lemma_flag_bits_known();
        }
        Permissions::from_bits_truncate(EXTRACT_CONTENT_BIT)
    }

    /// The flag that allows adding and modifying text annotations.
    pub fn modify_text_annotations() -> (p: Permissions)
        ensures
            p.bits() == MODIFY_TEXT_ANNOTATIONS_BIT,
    {
        proof {
            lemma_flag_bits_known();
        }
        Permissions::from_bits_truncate(MODIFY_TEXT_ANNOTATIONS_BIT)
    }

    /// The flag that allows filling interactive forms.
    pub fn fill_form() -> (p: Permissions)
        ensures
            p.bits() == FILL_FORM_BIT,
    {
        proof {
            lemma_flag_bits_known();
        }
        Permissions::from_bits_truncate(FILL_FORM_BIT)
    }

    /// The flag that allows content extraction for accessibility.
    pub fn extract_content_with_disabilities() -> (p: Permissions)
        ensures
            p.bits() == EXTRACT_CONTENT_WITH_DISABILITIES_BIT,
    {
        proof {
            lemma_flag_bits_known();
        }
        Permissions::from_bits_truncate(EXTRACT_CONTENT_WITH_DISABILITIES_BIT)
    }

    /// The flag that allows inserting, rotating and deleting pages.
    pub fn assemble_document() -> (p: Permissions)
        ensures
            p.bits() == ASSEMBLE_DOCUMENT_BIT,
    {
        proof {
            lemma_flag_bits_known();
        }
        Permissions::from_bits_truncate(ASSEMBLE_DOCUMENT_BIT)
    }

    /// The flag that allows high-quality printing.
    pub fn printing_quality() -> (p: Permissions)
        ensures
            p.bits() == PRINTING_QUALITY_BIT,
    {
        proof {
            lemma_flag_bits_known();
        }
        Permissions::from_bits_truncate(PRINTING_QUALITY_BIT)
    }

    /// Whether the set has no flag.
    pub fn is_empty(&self) -> (b: bool)
        ensures
            b == (self.bits() == 0),
    {
        self.bits == 0
    }

    /// Whether every flag of `other` is a flag of this set.
    pub fn contains(&self, other: Permissions) -> (b: bool)
        ensures
            b == (self.bits() & other.bits() == other.bits()),
    {
        self.bits & other.bits == other.bits
    }

    /// The set of the flags that are in this set or in `other`.
    pub fn union(self, other: Permissions) -> (p: Permissions)
        ensures
            p.bits() == self.bits() | other.bits(),
    {
        proof {
            use_type_invariant(self);
            use_type_invariant(other);
        }
        let a = self.bits;
        let b = other.bits;
        assert(a & !ALL_BITS == 0 && b & !ALL_BITS == 0 ==> (a | b) & !ALL_BITS == 0)
            by (bit_vector);
        Permissions { bits: a | b }
    }

    /// The text that describes the permissions to a user: what each flag of
    /// the set allows, in the order of the flags, or `No permissions`.
    pub fn to_string(&self) -> (s: String)
        ensures
            s@ == display_text(self.bits()),
    {
        let mut parts: Vec<&str> = Vec::new();
        let mut k: usize = 0;
        while k < FLAG_COUNT
            invariant
                k <= FLAG_COUNT,
                str_texts(parts@) == descriptions(self.bits(), k as int),
            decreases FLAG_COUNT - k,
        {
            let bit = flag_bit_at(k);
            if self.bits & bit == bit {
                parts.push(flag_description_at(k));
            }
            assert(str_texts(parts@) =~= descriptions(self.bits(), k + 1));
            k = k + 1;
        }
        if parts.len() == 0 {
            String::from_str("No permissions")
        } else {
            join_strs(&parts, ", ")
        }
    }

    /// The text that names the flags of the set, as `Permissions { A | B }`.
    pub fn debug_string(&self) -> (s: String)
        requires
            self.bits() != 0,
        ensures
            s@ == debug_text(self.bits()),
    {
        let mut parts: Vec<&str> = Vec::new();
        let mut k: usize = 0;
        while k < FLAG_COUNT
            invariant
                k <= FLAG_COUNT,
                str_texts(parts@) == names(self.bits(), k as int),
            decreases FLAG_COUNT - k,
        {
            let bit = flag_bit_at(k);
            if self.bits & bit == bit {
                parts.push(flag_name_at(k));
            }
            assert(str_texts(parts@) =~= names(self.bits(), k + 1));
            k = k + 1;
        }
        let mut s = String::from_str("Permissions { ");
        let listed = join_strs(&parts, " | ");
        s.append(listed.as_str());
        s.append(" }");
        s
    }
}

impl core::ops::BitOr for Permissions {
    type Output = Permissions;

    /// The set of the flags that are in either set.
    fn bitor(self, rhs: Permissions) -> (p: Permissions) {
        self.union(rhs)
    }
}

impl vstd::std_specs::ops::BitOrSpecImpl for Permissions {
    open spec fn obeys_bitor_spec() -> bool {
        true
    }

    open spec fn bitor_req(self, rhs: Permissions) -> bool {
        true
    }

    closed spec fn bitor_spec(self, rhs: Permissions) -> Permissions {
        Permissions { bits: self.bits | rhs.bits }
    }
}

impl From<i32> for Permissions {
    /// Converts an `i32` bitmask into `Permissions`, keeping only known bits.
    fn from(value: i32) -> (p: Permissions) {
        Permissions::from_bits_truncate(value)
    }
}

impl vstd::std_specs::convert::FromSpecImpl<i32> for Permissions {
    open spec fn obeys_from_spec() -> bool {
        true
    }

    closed spec fn from_spec(value: i32) -> Permissions {
        Permissions { bits: value & ALL_BITS }
    }
}

/// The bit of each flag is one of the bits of all the flags together.
pub proof fn lemma_flag_bits_known()
    ensures
        PRINT_DOCUMENT_BIT & ALL_BITS == PRINT_DOCUMENT_BIT,
        MODIFY_CONTENT_BIT & ALL_BITS == MODIFY_CONTENT_BIT,
        EXTRACT_CONTENT_BIT & ALL_BITS == EXTRACT_CONTENT_BIT,
        MODIFY_TEXT_ANNOTATIONS_BIT & ALL_BITS == MODIFY_TEXT_ANNOTATIONS_BIT,
        FILL_FORM_BIT & ALL_BITS == FILL_FORM_BIT,
        EXTRACT_CONTENT_WITH_DISABILITIES_BIT & ALL_BITS == EXTRACT_CONTENT_WITH_DISABILITIES_BIT,
        ASSEMBLE_DOCUMENT_BIT & ALL_BITS == ASSEMBLE_DOCUMENT_BIT,
        PRINTING_QUALITY_BIT & ALL_BITS == PRINTING_QUALITY_BIT,
{
    assert(0x004i32 & 0xF3C == 0x004 && 0x008i32 & 0xF3C == 0x008 && 0x010i32 & 0xF3C == 0x010
        && 0x020i32 & 0xF3C == 0x020 && 0x100i32 & 0xF3C == 0x100 && 0x200i32 & 0xF3C == 0x200
        && 0x400i32 & 0xF3C == 0x400 && 0x800i32 & 0xF3C == 0x800) by (bit_vector);
}

/// A flag is in the union of two sets exactly when it is in one of them.
pub proof fn lemma_union_flags(a: Permissions, b: Permissions, k: int)
    requires
        0 <= k < FLAG_COUNT,
    ensures
        has_flag(a.bits() | b.bits(), k) <==> has_flag(a.bits(), k) || has_flag(b.bits(), k),
{
    let x = a.bits();
    let y = b.bits();
    let m = flag_bit(k);
    assert((m == 0x004 || m == 0x008 || m == 0x010 || m == 0x020 || m == 0x100 || m == 0x200 || m
        == 0x400 || m == 0x800) ==> (((x | y) & m == m) <==> (x & m == m || y & m == m)))
        by (bit_vector);
}

/// One set contains another exactly when it has every flag of the other.
pub proof fn lemma_contains_flags(a: Permissions, b: Permissions)
    requires
        b.bits() & !ALL_BITS == 0,
    ensures
        (a.bits() & b.bits() == b.bits()) <==> (forall|k: int|
            0 <= k < FLAG_COUNT && #[trigger] has_flag(b.bits(), k) ==> has_flag(a.bits(), k)),
{
    let x = a.bits();
    let y = b.bits();
    if x & y == y {
        assert forall|k: int| 0 <= k < FLAG_COUNT && #[trigger] has_flag(y, k) implies has_flag(
            x,
            k,
        ) by {
            let m = flag_bit(k);
            assert(x & y == y && y & m == m ==> x & m == m) by (bit_vector);
        }
    } else {
        assert(y & !0xF3Ci32 == 0 && (y & 0x004 == 0x004 ==> x & 0x004 == 0x004) && (y & 0x008
            == 0x008 ==> x & 0x008 == 0x008) && (y & 0x010 == 0x010 ==> x & 0x010 == 0x010) && (y
            & 0x020 == 0x020 ==> x & 0x020 == 0x020) && (y & 0x100 == 0x100 ==> x & 0x100 == 0x100)
            && (y & 0x200 == 0x200 ==> x & 0x200 == 0x200) && (y & 0x400 == 0x400 ==> x & 0x400
            == 0x400) && (y & 0x800 == 0x800 ==> x & 0x800 == 0x800) ==> x & y == y)
            by (bit_vector);
        assert(flag_bit(0) == 0x004 && flag_bit(1) == 0x008 && flag_bit(2) == 0x010 && flag_bit(3)
            == 0x020 && flag_bit(4) == 0x100 && flag_bit(5) == 0x200 && flag_bit(6) == 0x400
            && flag_bit(7) == 0x800);
        if forall|k: int|
            0 <= k < FLAG_COUNT && #[trigger] has_flag(y, k) ==> has_flag(x, k) {
            assert(has_flag(y, 0) ==> has_flag(x, 0));
            assert(has_flag(y, 1) ==> has_flag(x, 1));
            assert(has_flag(y, 2) ==> has_flag(x, 2));
            assert(has_flag(y, 3) ==> has_flag(x, 3));
            assert(has_flag(y, 4) ==> has_flag(x, 4));
            assert(has_flag(y, 5) ==> has_flag(x, 5));
            assert(has_flag(y, 6) ==> has_flag(x, 6));
            assert(has_flag(y, 7) ==> has_flag(x, 7));
            assert(false);
        }
    }
}

/// The bits of what `|` gives are the bits of either set.
pub proof fn lemma_bitor_bits(a: Permissions, b: Permissions)
    ensures
        vstd::std_specs::ops::BitOrSpec::bitor_spec(a, b).bits() == a.bits() | b.bits(),
{
}

/// The bits of what `from` gives are the known bits of the integer.
pub proof fn lemma_from_bits(value: i32)
    ensures
        <Permissions as vstd::std_specs::convert::FromSpec<i32>>::from_spec(value).bits() == value
            & ALL_BITS,
{
}

} // verus!
