//! Core value types shared across the façade: interned string handles,
//! colors, qualified names, language levels, cascade origins, media masks
//! and length units.

use vstd::prelude::*;

verus! {

use vstd::string::StrSliceExecFns;
use vstd::string::StringSliceAdditionalSpecFns;

/// A canonical string handle, as the string-interning collaborator hands
/// them out. The model keeps the interned bytes themselves; two handles
/// are the same string exactly when their byte sequences are equal.
pub struct LwcStringRef {
    bytes: Vec<u8>,
}

impl View for LwcStringRef {
    type V = Seq<u8>;

    closed spec fn view(&self) -> Seq<u8> {
        self.bytes@
    }
}

impl Clone for LwcStringRef {
    fn clone(&self) -> (r: Self)
        ensures
            r@ == self@,
    {
        let b = self.bytes.clone();
        proof {
            assert(b@ =~= self.bytes@);
        }
        LwcStringRef { bytes: b }
    }
}

impl LwcStringRef {
    /// The interned bytes.
    pub fn as_bytes(&self) -> (r: &[u8])
        ensures
            r@ == self@,
    {
        self.bytes.as_slice()
    }

    /// Interns a byte sequence directly.
    pub fn from_bytes(bytes: Vec<u8>) -> (r: LwcStringRef)
        ensures
            r@ == bytes@,
    {
        LwcStringRef { bytes }
    }
}

/// Interns a Rust string: the handle holds the string's UTF-8 bytes.
pub fn from_rust_string(s: &str) -> (r: LwcStringRef)
    ensures
        r@ == s.spec_bytes(),
{
    LwcStringRef { bytes: s.as_bytes_vec() }
}

/// The byte sequences held by a sequence of interned string handles.
pub open spec fn spec_strings_view(v: Seq<LwcStringRef>) -> Seq<Seq<u8>> {
    Seq::new(v.len(), |i: int| v[i]@)
}

/// An RGBA color, one byte per channel.
#[derive(Clone, Copy, Debug, PartialEq, Eq, Structural)]
pub struct CssColor {
    pub r: u8,
    pub g: u8,
    pub b: u8,
    pub a: u8,
}

/// A qualified element name: an optional namespace and a local name, both
/// interned string handles.
pub struct CssQName {
    pub ns: Option<LwcStringRef>,
    pub name: LwcStringRef,
}

/// Spec-level shape of a qualified name.
pub struct CssQNameView {
    pub ns: Option<Seq<u8>>,
    pub name: Seq<u8>,
}

impl View for CssQName {
    type V = CssQNameView;

    open spec fn view(&self) -> CssQNameView {
        CssQNameView {
            ns: match self.ns {
                Option::Some(s) => Option::Some(s@),
                Option::None => Option::None,
            },
            name: self.name@,
        }
    }
}

/// A qualified name in the engine's own shape; the model's typed
/// qualified name already has it.
#[allow(non_camel_case_types)]
pub type css_qname = CssQName;

/// The CSS language level a stylesheet is parsed against.
#[derive(Clone, Copy, Debug, PartialEq, Eq, Structural)]
pub enum CssLanguageLevel {
    CssLevel1,
    CssLevel2,
    CssLevel21,
    CssLevel3,
    CssLevelDefault,
}

/// Language level as the engine encodes it; the default level stands for
/// level 2.1.
pub open spec fn spec_language_level_code(level: CssLanguageLevel) -> u32 {
    match level {
        CssLanguageLevel::CssLevel1 => CSS_LEVEL_1,
        CssLanguageLevel::CssLevel2 => CSS_LEVEL_2,
        CssLanguageLevel::CssLevel21 => CSS_LEVEL_21,
        CssLanguageLevel::CssLevel3 => CSS_LEVEL_3,
        CssLanguageLevel::CssLevelDefault => CSS_LEVEL_DEFAULT,
    }
}

impl CssLanguageLevel {
    /// The engine's numeric code for this level.
    pub fn to_ll(&self) -> (r: u32)
        ensures
            r == spec_language_level_code(*self),
    {
        match self {
            CssLanguageLevel::CssLevel1 => CSS_LEVEL_1,
            CssLanguageLevel::CssLevel2 => CSS_LEVEL_2,
            CssLanguageLevel::CssLevel21 => CSS_LEVEL_21,
            CssLanguageLevel::CssLevel3 => CSS_LEVEL_3,
            CssLanguageLevel::CssLevelDefault => CSS_LEVEL_DEFAULT,
        }
    }
}

#[allow(non_camel_case_types)]
pub type css_language_level = u32;

pub const CSS_LEVEL_1: css_language_level = 0;
pub const CSS_LEVEL_2: css_language_level = 1;
pub const CSS_LEVEL_21: css_language_level = 2;
pub const CSS_LEVEL_3: css_language_level = 3;
pub const CSS_LEVEL_DEFAULT: css_language_level = 2;

/// A cascade origin tier.
#[allow(non_camel_case_types)]
pub type css_origin = u32;

pub const CSS_ORIGIN_UA: css_origin = 0;
pub const CSS_ORIGIN_USER: css_origin = 1;
pub const CSS_ORIGIN_AUTHOR: css_origin = 2;

/// A bitmask over media types.
pub const CSS_MEDIA_AURAL: u64 = 1;
pub const CSS_MEDIA_BRAILLE: u64 = 2;
pub const CSS_MEDIA_EMBOSSED: u64 = 4;
pub const CSS_MEDIA_HANDHELD: u64 = 8;
pub const CSS_MEDIA_PRINT: u64 = 16;
pub const CSS_MEDIA_PROJECTION: u64 = 32;
pub const CSS_MEDIA_SCREEN: u64 = 64;
pub const CSS_MEDIA_SPEECH: u64 = 128;
pub const CSS_MEDIA_TTY: u64 = 256;
pub const CSS_MEDIA_TV: u64 = 512;
pub const CSS_MEDIA_ALL: u64 = 1023;

/// A length unit code.
#[allow(non_camel_case_types)]
pub type css_unit = u32;

pub const CSS_UNIT_PX: css_unit = 0x0;
pub const CSS_UNIT_EX: css_unit = 0x1;
pub const CSS_UNIT_EM: css_unit = 0x2;
pub const CSS_UNIT_IN: css_unit = 0x3;
pub const CSS_UNIT_CM: css_unit = 0x4;
pub const CSS_UNIT_MM: css_unit = 0x5;
pub const CSS_UNIT_PT: css_unit = 0x6;
pub const CSS_UNIT_PC: css_unit = 0x7;
pub const CSS_UNIT_PCT: css_unit = 0x8;
pub const CSS_UNIT_DEG: css_unit = 0x9;
pub const CSS_UNIT_GRAD: css_unit = 0xa;
pub const CSS_UNIT_RAD: css_unit = 0xb;
pub const CSS_UNIT_MS: css_unit = 0xc;
pub const CSS_UNIT_S: css_unit = 0xd;
pub const CSS_UNIT_HZ: css_unit = 0xe;
pub const CSS_UNIT_KHZ: css_unit = 0xf;

/// A fixed-point magnitude as the engine stores lengths.
#[allow(non_camel_case_types)]
pub type css_fixed = i32;

/// Compares two byte slices for equality of contents.
pub fn bytes_eq(a: &[u8], b: &[u8]) -> (r: bool)
    ensures
        r <==> a@ =~= b@,
{
    if a.len() != b.len() {
        return false;
    }
    let n = a.len();
    let mut i: usize = 0;
    while i < n
        invariant
            n == a@.len() == b@.len(),
            i <= n,
            forall|j: int| 0 <= j < i ==> a@[j] == b@[j],
        decreases n - i,
    {
        if a[i] != b[i] {
            return false;
        }
        i = i + 1;
    }
    true
}

} // verus!
