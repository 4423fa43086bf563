use vstd::prelude::*;

use vstd::slice::slice_to_vec;

verus! {

/// A system font as the platform font database hands it back: the raw font
/// data, the index of the face inside a collection, and the family name the
/// loader reports. What the engine makes of these bytes is its own affair;
/// this layer only selects and carries them.
#[derive(Debug)]
pub struct SelectedFont {
    pub data: Vec<u8>,
    pub index: u32,
    pub family: String,
}

/// The character-collection orderings a document can ask a CJK font for.
#[derive(Clone, Copy, Debug, PartialEq, Eq, Structural)]
pub enum CjkOrdering {
    AdobeCns,
    AdobeGb,
    AdobeJapan,
    AdobeKorea,
}

impl CjkOrdering {
    /// The ordering behind the engine's numeric code, if the code names
    /// one: the engine numbers them CNS, GB, Japan, Korea from zero up.
    pub fn from_code(code: i32) -> (r: Option<CjkOrdering>)
        ensures
            code == 0 ==> r == Some(CjkOrdering::AdobeCns),
            code == 1 ==> r == Some(CjkOrdering::AdobeGb),
            code == 2 ==> r == Some(CjkOrdering::AdobeJapan),
            code == 3 ==> r == Some(CjkOrdering::AdobeKorea),
            !(0 <= code <= 3) ==> r is None,
    {
        if code == 0 {
            Some(CjkOrdering::AdobeCns)
        } else if code == 1 {
            Some(CjkOrdering::AdobeGb)
        } else if code == 2 {
            Some(CjkOrdering::AdobeJapan)
        } else if code == 3 {
            Some(CjkOrdering::AdobeKorea)
        } else {
            None
        }
    }
}

/// Whether `s` ends with `suffix`.
pub open spec fn bytes_end_with(s: Seq<u8>, suffix: Seq<u8>) -> bool {
    suffix.len() <= s.len() && s.subrange(s.len() - suffix.len(), s.len() as int) == suffix
}

/// `s` with `suffix` taken off its end, when it ends with it; `s` itself
/// otherwise.
pub open spec fn strip_one_suffix(s: Seq<u8>, suffix: Seq<u8>) -> Seq<u8> {
    if bytes_end_with(s, suffix) {
        s.subrange(0, s.len() - suffix.len())
    } else {
        s
    }
}

/// The bytes of "MT".
pub open spec fn suffix_mt() -> Seq<u8> {
    seq![77u8, 84u8]
}

/// The bytes of "PS".
pub open spec fn suffix_ps() -> Seq<u8> {
    seq![80u8, 83u8]
}

/// The bytes of "IdentityH".
pub open spec fn suffix_identity_h() -> Seq<u8> {
    seq![73u8, 100u8, 101u8, 110u8, 116u8, 105u8, 116u8, 121u8, 72u8]
}

/// A PostScript name cut down to the family name it is tried under when
/// the exact name finds nothing: the decorations "MT", "PS" and
/// "IdentityH" are peeled off its end, in that order, each at most once.
pub open spec fn normalized_font_name(s: Seq<u8>) -> Seq<u8> {
    strip_one_suffix(strip_one_suffix(strip_one_suffix(s, suffix_mt()), suffix_ps()), suffix_identity_h())
}

/// No byte of `s` is the NUL terminator. The platform font database takes
/// its queries as terminated C strings, so a name with an interior NUL
/// cannot be handed to it at all.
pub open spec fn nul_free(s: Seq<u8>) -> bool {
    forall|i: int| 0 <= i < s.len() ==> s[i] != 0u8
}

/// Names the success condition of core::str::from_utf8: whether the bytes
/// are valid text. It depends on the bytes alone.
pub uninterp spec fn is_valid_utf8(s: Seq<u8>) -> bool;

/// Whether `name` holds an interior NUL byte.
fn has_interior_nul(name: &[u8]) -> (r: bool)
    ensures
        r == !nul_free(name@),
{
    let mut i: usize = 0;
    while i < name.len()
        invariant
            i <= name@.len(),
            forall|j: int| 0 <= j < i ==> name@[j] != 0u8,
        decreases name@.len() - i,
    {
        if name[i] == 0 {
            return true;
        }
        i = i + 1;
    }
    false
}

/// Taking a suffix off the end of a NUL-free name leaves it NUL-free.
proof fn lemma_strip_keeps_nul_free(s: Seq<u8>, suffix: Seq<u8>)
    requires
        nul_free(s),
    ensures
        nul_free(strip_one_suffix(s, suffix)),
{
    if bytes_end_with(s, suffix) {
        let stripped = s.subrange(0, s.len() - suffix.len());
        assert forall|i: int| 0 <= i < stripped.len() implies stripped[i] != 0u8 by {
            assert(stripped[i] == s[i]);
        }
    }
}

/// The normalized family name of a NUL-free name is NUL-free.
proof fn lemma_normalized_keeps_nul_free(s: Seq<u8>)
    requires
        nul_free(s),
    ensures
        nul_free(normalized_font_name(s)),
{
    lemma_strip_keeps_nul_free(s, suffix_mt());
    lemma_strip_keeps_nul_free(strip_one_suffix(s, suffix_mt()), suffix_ps());
    lemma_strip_keeps_nul_free(
        strip_one_suffix(strip_one_suffix(s, suffix_mt()), suffix_ps()),
        suffix_identity_h(),
    );
}

/// Whether the byte slice `s` ends with `suffix`.
fn ends_with_bytes(s: &Vec<u8>, suffix: &Vec<u8>) -> (r: bool)
    ensures
        r == bytes_end_with(s@, suffix@),
{
    if suffix.len() > s.len() {
        return false;
    }
    let offset = s.len() - suffix.len();
    let mut i: usize = 0;
    while i < suffix.len()
        invariant
            s@.len() <= usize::MAX,
            suffix@.len() <= s@.len(),
            offset == s@.len() - suffix@.len(),
            i <= suffix@.len(),
            forall|j: int| 0 <= j < i ==> s@[offset + j] == suffix@[j],
        decreases suffix@.len() - i,
    {
        if s[offset + i] != suffix[i] {
            proof {
                assert(s@.subrange(s@.len() - suffix@.len(), s@.len() as int)[i as int]
                    != suffix@[i as int]);
            }
            return false;
        }
        i = i + 1;
    }
    proof {
        assert(s@.subrange(s@.len() - suffix@.len(), s@.len() as int) =~= suffix@);
    }
    true
}

/// Takes `suffix` off the end of `s` if it is there.
fn strip_suffix_bytes(s: Vec<u8>, suffix: &Vec<u8>) -> (r: Vec<u8>)
    ensures
        r@ == strip_one_suffix(s@, suffix@),
{
    if ends_with_bytes(&s, suffix) {
        let keep = s.len() - suffix.len();
        let mut out: Vec<u8> = Vec::new();
        let mut i: usize = 0;
        while i < keep
            invariant
                keep <= s@.len(),
                i <= keep,
                out@.len() == i,
                forall|j: int| 0 <= j < i ==> out@[j] == s@[j],
            decreases keep - i,
        {
            out.push(s[i]);
            i = i + 1;
        }
        proof {
            assert(out@ =~= s@.subrange(0, s@.len() - suffix@.len()));
        }
        out
    } else {
        s
    }
}

/// The bytes of "MT".
fn suffix_mt_bytes() -> (v: Vec<u8>)
    ensures
        v@ == suffix_mt(),
{
    let mut v: Vec<u8> = Vec::new();
    v.push(77);
    v.push(84);
    proof {
        assert(v@ =~= suffix_mt());
    }
    v
}

/// The bytes of "PS".
fn suffix_ps_bytes() -> (v: Vec<u8>)
    ensures
        v@ == suffix_ps(),
{
    let mut v: Vec<u8> = Vec::new();
    v.push(80);
    v.push(83);
    proof {
        assert(v@ =~= suffix_ps());
    }
    v
}

/// The bytes of "IdentityH".
fn suffix_identity_h_bytes() -> (v: Vec<u8>)
    ensures
        v@ == suffix_identity_h(),
{
    let mut v: Vec<u8> = Vec::new();
    v.push(73);
    v.push(100);
    v.push(101);
    v.push(110);
    v.push(116);
    v.push(105);
    v.push(116);
    v.push(121);
    v.push(72);
    proof {
        assert(v@ =~= suffix_identity_h());
    }
    v
}

/// The family name a PostScript name falls back to: the decorations
/// "MT", "PS" and "IdentityH" peeled off its end, in that order.
pub fn strip_font_name_suffixes(name: &[u8]) -> (r: Vec<u8>)
    ensures
        r@ == normalized_font_name(name@),
{
    let owned: Vec<u8> = slice_to_vec(name);
    let after_mt = strip_suffix_bytes(owned, &suffix_mt_bytes());
    let after_ps = strip_suffix_bytes(after_mt, &suffix_ps_bytes());
    strip_suffix_bytes(after_ps, &suffix_identity_h_bytes())
}

/// The exact-metrics rule of the font-loading callback: a candidate whose
/// reported weight or slant falls short of what was demanded must be
/// answered with no font at all rather than the inexact match.
pub fn font_passes_exact_metrics(
    needs_exact_metrics: bool,
    bold: bool,
    italic: bool,
    font_bold: bool,
    font_italic: bool,
) -> (ok: bool)
    ensures
        ok == !(needs_exact_metrics && ((bold && !font_bold) || (italic && !font_italic))),
{
    !(needs_exact_metrics && ((bold && !font_bold) || (italic && !font_italic)))
}

/// The family names tried for a CJK script when the requested name finds
/// nothing, keyed by the document's ordering and whether a serif face was
/// asked for. An ordering the engine did not name yields no candidates.
pub fn cjk_font_candidates(ordering: Option<CjkOrdering>, serif: bool) -> (names: Vec<&'static str>)
    ensures
        match ordering {
            Some(CjkOrdering::AdobeCns) => if serif {
                names@.len() == 1 && names@[0]@ == "MingLiU"@
            } else {
                names@.len() == 1 && names@[0]@ == "DFKaiShu-SB-Estd-BF"@
            },
            Some(CjkOrdering::AdobeGb) => if serif {
                names@.len() == 1 && names@[0]@ == "SimSun"@
            } else {
                names@.len() == 2 && names@[0]@ == "KaiTi"@ && names@[1]@ == "KaiTi_GB2312"@
            },
            Some(CjkOrdering::AdobeJapan) => if serif {
                names@.len() == 1 && names@[0]@ == "MS-Mincho"@
            } else {
                names@.len() == 1 && names@[0]@ == "MS-Gothic"@
            },
            Some(CjkOrdering::AdobeKorea) => if serif {
                names@.len() == 1 && names@[0]@ == "Batang"@
            } else {
                names@.len() == 1 && names@[0]@ == "Gulim"@
            },
            None => names@.len() == 0,
        },
{
    let mut names: Vec<&'static str> = Vec::new();
    match ordering {
        Some(CjkOrdering::AdobeCns) => {
            if serif {
                names.push("MingLiU");
            } else {
                names.push("DFKaiShu-SB-Estd-BF");
            }
        },
        Some(CjkOrdering::AdobeGb) => {
            if serif {
                names.push("SimSun");
            } else {
                names.push("KaiTi");
                names.push("KaiTi_GB2312");
            }
        },
        Some(CjkOrdering::AdobeJapan) => {
            if serif {
                names.push("MS-Mincho");
            } else {
                names.push("MS-Gothic");
            }
        },
        Some(CjkOrdering::AdobeKorea) => {
            if serif {
                names.push("Batang");
            } else {
                names.push("Gulim");
            }
        },
        None => {},
    }
    names
}

#[verifier::external_type_specification]
#[verifier::external_body]
pub struct ExSystemSource(font_kit::source::SystemSource);

#[verifier::external_type_specification]
#[verifier::external_body]
pub struct ExFontHandle(font_kit::handle::Handle);

#[verifier::external_type_specification]
#[verifier::external_body]
pub struct ExFont(font_kit::font::Font);

/// Relies on font_kit's SystemSource::new: opens the platform font
/// database for queries.
#[verifier::external_body]
pub fn system_font_source() -> font_kit::source::SystemSource {
    font_kit::source::SystemSource::new()
}

/// Relies on font_kit's SystemSource::select_by_postscript_name: finds the
/// installed font with the given PostScript name, if one is installed; the
/// outcome depends on the machine's font database. A name that is not
/// valid text is found nowhere. The fontconfig backend hands the name to
/// the C library as a terminated string and aborts on an interior NUL, so
/// such a name is excluded here.
#[verifier::external_body]
fn select_by_postscript_name(
    source: &font_kit::source::SystemSource,
    name: &[u8],
) -> (r: Option<font_kit::handle::Handle>)
    requires
        nul_free(name@),
    ensures
        !is_valid_utf8(name@) ==> r is None,
{
    let name = match core::str::from_utf8(name) {
        Ok(name) => name,
        Err(_) => return None,
    };
    source.select_by_postscript_name(name).ok()
}

/// Relies on font_kit's SystemSource::select_best_match: picks the closest
/// installed face of the family, weighted bold or normal and slanted
/// italic or upright; the outcome depends on the machine's font database.
/// A family that is not valid text matches nothing. The fontconfig backend
/// hands the family to the C library as a terminated string and aborts on
/// an interior NUL, so such a family is excluded here.
#[verifier::external_body]
fn select_best_match(
    source: &font_kit::source::SystemSource,
    family: &[u8],
    bold: bool,
    italic: bool,
) -> (r: Option<font_kit::handle::Handle>)
    requires
        nul_free(family@),
    ensures
        !is_valid_utf8(family@) ==> r is None,
{
    let family = match core::str::from_utf8(family) {
        Ok(family) => family,
        Err(_) => return None,
    };
    let mut properties = font_kit::properties::Properties::new();
    properties.weight(
        if bold { font_kit::properties::Weight::BOLD } else { font_kit::properties::Weight::NORMAL },
    ).style(
        if italic { font_kit::properties::Style::Italic } else { font_kit::properties::Style::Normal },
    );
    source.select_best_match(
        &[font_kit::family_name::FamilyName::Title(family.to_string())],
        &properties,
    ).ok()
}

/// Relies on font_kit's Handle enum: both of its variants carry the index
/// of the face inside a collection.
#[verifier::external_body]
fn handle_font_index(handle: &font_kit::handle::Handle) -> u32 {
    match handle {
        font_kit::handle::Handle::Path { font_index, .. } => *font_index,
        font_kit::handle::Handle::Memory { font_index, .. } => *font_index,
    }
}

/// Relies on font_kit's Handle::load: reads the font the handle points at,
/// if the file is still there and parses.
#[verifier::external_body]
fn load_font_handle(handle: &font_kit::handle::Handle) -> Option<font_kit::font::Font> {
    handle.load().ok()
}

/// Relies on font_kit's Font::family_name: the family name the loader
/// reports for the font. The loader itself assumes that name is valid
/// text and aborts on a font whose recorded family name is not; which
/// fonts a loaded handle can yield is the font database's affair, so no
/// precondition of this library can narrow it further.
#[verifier::external_body]
fn font_family_name(font: &font_kit::font::Font) -> String {
    font.family_name()
}

/// Relies on font_kit's Font::copy_font_data: the raw bytes the font was
/// loaded from, when the loader kept them.
#[verifier::external_body]
fn font_copy_data(font: &font_kit::font::Font) -> Option<Vec<u8>> {
    font.copy_font_data().map(|data| (*data).clone())
}

/// The "load by name and style" callback slot, up to the point the engine
/// takes over: finds a system font for the PostScript name, falling back
/// to a best match for the stripped family name with the requested weight
/// and slant, and hands back its data, face index and family name.
///
/// A name the native side cannot carry finds no font: one holding an
/// interior NUL is refused before any query, and one that is not valid
/// text (under the exact name and under its stripped family name alike)
/// matches nothing in the database. Beyond that the outcome is the
/// machine's font database's; the exact-metrics rule, which needs the
/// engine's reading of the font, is `font_passes_exact_metrics`, applied
/// by the host once the engine has the font.
pub fn load_system_font(
    source: &font_kit::source::SystemSource,
    name: &[u8],
    bold: bool,
    italic: bool,
) -> (r: Option<SelectedFont>)
    ensures
        !nul_free(name@) ==> r is None,
        (!is_valid_utf8(name@) && !is_valid_utf8(normalized_font_name(name@))) ==> r is None,
{
    if has_interior_nul(name) {
        return None;
    }
    let handle = match select_by_postscript_name(source, name) {
        Some(handle) => handle,
        None => {
            let family = strip_font_name_suffixes(name);
            proof {
                lemma_normalized_keeps_nul_free(name@);
            }
            match select_best_match(source, family.as_slice(), bold, italic) {
                Some(handle) => handle,
                None => {
                    return None;
                },
            }
        },
    };
    let index = handle_font_index(&handle);
    let font = match load_font_handle(&handle) {
        Some(font) => font,
        None => {
            return None;
        },
    };
    let data = match font_copy_data(&font) {
        Some(data) => data,
        None => {
            return None;
        },
    };
    let family = font_family_name(&font);
    Some(SelectedFont { data, index, family })
}

/// Tries a list of family names in order and keeps the first font the
/// system turns up, with normal weight and upright slant. An empty list
/// finds nothing.
pub fn load_font_by_names(
    source: &font_kit::source::SystemSource,
    names: &Vec<&'static str>,
) -> (r: Option<SelectedFont>)
    ensures
        names@.len() == 0 ==> r is None,
{
    let mut i: usize = 0;
    while i < names.len()
        decreases names@.len() - i,
    {
        let name = names[i];
        let found = load_system_font(source, name.as_bytes(), false, false);
        if found.is_some() {
            return found;
        }
        i = i + 1;
    }
    None
}

/// The "load CJK font by script ordering" callback slot, up to the point
/// the engine takes over: the requested name is tried first; failing that,
/// the stock family for the document's ordering and serif preference, as
/// `cjk_font_candidates` lists them. When the name can match nothing (an
/// interior NUL, or text the native side cannot carry) and the ordering
/// code names no ordering, there is no candidate left and no font comes
/// back.
pub fn load_system_cjk_font(
    source: &font_kit::source::SystemSource,
    name: &[u8],
    ordering: i32,
    serif: bool,
) -> (r: Option<SelectedFont>)
    ensures
        (!nul_free(name@) || (!is_valid_utf8(name@) && !is_valid_utf8(
            normalized_font_name(name@),
        ))) && !(0 <= ordering <= 3) ==> r is None,
{
    let found = load_system_font(source, name, false, false);
    if found.is_some() {
        return found;
    }
    let candidates = cjk_font_candidates(CjkOrdering::from_code(ordering), serif);
    load_font_by_names(source, &candidates)
}

/// The "load fallback font by script" callback slot: this platform layer
/// offers no script fallbacks, so the engine is always answered with no
/// font, whatever the script, language or style flags say.
pub fn load_system_fallback_font(
    _script: i32,
    _language: i32,
    _serif: bool,
    _bold: bool,
    _italic: bool,
) -> (r: Option<SelectedFont>)
    ensures
        r is None,
{
    None
}

} // verus!
