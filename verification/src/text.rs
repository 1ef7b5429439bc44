//! Complex-script shaping and font fallback for a cell grid.
//!
//! Shaping decides what glyphs to draw. It never decides how many cells they occupy:
//! the grid already did that, matching the application on the other end of the pty.
//! Fonts are parsed by `skrifa` and `harfrust`, and shaped by `harfrust`.

use skrifa::instance::{LocationRef, Size};
use skrifa::MetadataProvider;
use vstd::prelude::*;

use crate::strs::chars_of;

verus! {

#[verifier::external_type_specification]
#[verifier::external_body]
pub struct ExHarfrustFont(harfrust::Font);

/// Whether `harfrust` loads a font from `bytes`.
pub uninterp spec fn spec_font_loads(bytes: Seq<u8>) -> bool;

/// Whether `skrifa` parses `bytes` as a font.
pub uninterp spec fn spec_font_parses(bytes: Seq<u8>) -> bool;

/// The design units per em `skrifa` reads from the font in `bytes`.
pub uninterp spec fn spec_units_per_em(bytes: Seq<u8>) -> u16;

/// Whether the font in `bytes` parses and its character map has a glyph for `c`.
pub uninterp spec fn spec_font_maps(bytes: Seq<u8>, c: char) -> bool;

/// What `harfrust` makes of `text` with the font in `bytes`: for each glyph, its id,
/// horizontal advance, and offsets, in font design units; `None` where shaping fails.
pub uninterp spec fn spec_shape(bytes: Seq<u8>, text: Seq<char>) -> Option<Seq<(u32, i32, i32, i32)>>;

/// `harfrust::Font::new(bytes, 0)`: the first font in `bytes`, if it loads.
#[verifier::external_body]
fn load_font(bytes: &Vec<u8>) -> (r: Option<harfrust::Font>)
    ensures
        r is Some == spec_font_loads(bytes@),
{
    harfrust::Font::new(bytes.clone(), 0)
}

/// `skrifa::FontRef::new(bytes).is_ok()`.
#[verifier::external_body]
fn font_parses(bytes: &[u8]) -> (r: bool)
    ensures
        r == spec_font_parses(bytes@),
{
    skrifa::FontRef::new(bytes).is_ok()
}

/// The `units_per_em` of `skrifa`'s unscaled metrics at the default location, or 0
/// where the font does not parse.
#[verifier::external_body]
fn units_per_em_of(bytes: &[u8]) -> (r: u16)
    ensures
        r == spec_units_per_em(bytes@),
{
    match skrifa::FontRef::new(bytes) {
        Ok(font) => font.metrics(Size::unscaled(), LocationRef::default()).units_per_em,
        Err(_) => 0,
    }
}

/// `skrifa`'s character map lookup: whether the font parses and maps `c` to a glyph.
#[verifier::external_body]
fn font_maps(bytes: &[u8], c: char) -> (r: bool)
    ensures
        r == spec_font_maps(bytes@, c),
{
    match skrifa::FontRef::new(bytes) {
        Ok(font) => font.charmap().map(c).is_some(),
        Err(_) => false,
    }
}

/// `harfrust::shape` on `cluster` with the face's font, the buffer's script,
/// language and direction guessed from the text, and default options. The glyphs
/// come back as id, advance and offsets. The font was loaded from the face's bytes,
/// so the result is named over them.
#[verifier::external_body]
fn shape_raw(face: &Face, cluster: &str) -> (r: Option<Vec<(u32, i32, i32, i32)>>)
    ensures
        match r {
            Some(v) => spec_shape(face.spec_bytes(), cluster@) == Some(v@),
            None => spec_shape(face.spec_bytes(), cluster@) is None,
        },
{
    let font = harfrust::ShaperFont::new(&face.font);
    let mut buffer = harfrust::Buffer::new();
    buffer.push_str(cluster);
    buffer.guess_segment_properties();
    match harfrust::shape(&font, &mut buffer, harfrust::ShapeOptions::new()) {
        Ok(()) => Some(
            buffer.glyph_infos().iter().zip(buffer.glyph_positions()).map(
                |(i, p)| (i.glyph_id, p.x_advance, p.x_offset, p.y_offset),
            ).collect(),
        ),
        Err(_) => None,
    }
}

/// Characters a font is never expected to have a glyph for, and whose absence
/// must not disqualify it during fallback: the joiners and the variation selectors.
pub open spec fn spec_is_invisible(c: char) -> bool {
    c == '\u{200C}' || c == '\u{200D}' || ('\u{FE00}' <= c <= '\u{FE0F}') || ('\u{E0100}' <= c <= '\u{E01EF}')
}

/// Characters a font is never expected to have a glyph for.
///
/// A font shapes `ZWJ` and `ZWNJ` by their effect on joining, not by drawing them.
/// Requiring coverage would push every conjunct to a fallback face.
pub fn is_invisible(c: char) -> (b: bool)
    ensures
        b == spec_is_invisible(c),
{
    c == '\u{200C}' || c == '\u{200D}' || ('\u{FE00}' <= c && c <= '\u{FE0F}') || ('\u{E0100}' <= c && c
        <= '\u{E01EF}')
}

/// A font that could not be parsed, by its name.
#[derive(Clone, PartialEq, Eq, Debug)]
pub struct FaceError {
    pub name: String,
}

/// A font face, ready to shape.
///
/// Holds its own bytes, from which the font was loaded, and the units per em its
/// shaped positions are in.
pub struct Face {
    name: String,
    bytes: Vec<u8>,
    font: harfrust::Font,
    units_per_em: u16,
}

impl Face {
    /// The font's bytes.
    pub closed spec fn spec_bytes(&self) -> Seq<u8> {
        self.bytes@
    }

    pub closed spec fn spec_name(&self) -> Seq<char> {
        self.name@
    }

    pub closed spec fn spec_units_per_em(&self) -> u16 {
        self.units_per_em
    }

    /// Parse a font from its bytes.
    pub fn new(name: String, bytes: Vec<u8>) -> (r: Result<Self, FaceError>)
        ensures
            match r {
                Ok(face) => {
                    &&& spec_font_loads(bytes@)
                    &&& face.spec_bytes() == bytes@
                    &&& face.spec_name() == name@
                    &&& face.spec_units_per_em() == spec_units_per_em(bytes@)
                },
                Err(e) => !spec_font_loads(bytes@) && e.name@ == name@,
            },
    {
        match load_font(&bytes) {
            Some(font) => {
                let units_per_em = units_per_em_of(bytes.as_slice());
                Ok(Face { name, bytes, font, units_per_em })
            },
            None => Err(FaceError { name }),
        }
    }

    #[must_use]
    pub fn name(&self) -> (s: &str)
        ensures
            s@ == self.spec_name(),
    {
        self.name.as_str()
    }

    /// The font's bytes.
    #[must_use]
    pub fn bytes(&self) -> (b: &[u8])
        ensures
            b@ == self.spec_bytes(),
    {
        self.bytes.as_slice()
    }

    /// Font design units per em. Shaped positions are in these units.
    #[must_use]
    pub fn units_per_em(&self) -> (u: u16)
        ensures
            u == self.spec_units_per_em(),
    {
        self.units_per_em
    }

    /// Whether this face has a glyph for `c`.
    #[must_use]
    pub fn has_glyph(&self, c: char) -> (b: bool)
        ensures
            b == spec_font_maps(self.spec_bytes(), c),
    {
        font_maps(self.bytes.as_slice(), c)
    }

    /// Whether the font parses and has a glyph for every visible character of `s`.
    pub open spec fn spec_covers(&self, s: Seq<char>) -> bool {
        &&& spec_font_parses(self.spec_bytes())
        &&& forall|i: int| 0 <= i < s.len() && !spec_is_invisible(s[i]) ==> spec_font_maps(self.spec_bytes(), #[trigger] s[i])
    }

    /// Whether this face can draw every visible character of `cluster`.
    #[must_use]
    pub fn covers(&self, cluster: &str) -> (b: bool)
        ensures
            b == self.spec_covers(cluster@),
    {
        if !font_parses(self.bytes.as_slice()) {
            return false;
        }
        let chars = chars_of(cluster);
        let mut i: usize = 0;
        while i < chars.len()
            invariant
                i <= chars@.len(),
                chars@ == cluster@,
                spec_font_parses(self.spec_bytes()),
                forall|j: int| 0 <= j < i && !spec_is_invisible(chars@[j]) ==> spec_font_maps(self.spec_bytes(), #[trigger] chars@[j]),
            decreases chars@.len() - i,
        {
            let c = chars[i];
            if !is_invisible(c) && !font_maps(self.bytes.as_slice(), c) {
                return false;
            }
            i = i + 1;
        }
        true
    }
}

/// A font stack with no faces, which would have nothing to render tofu with.
#[derive(Clone, Copy, PartialEq, Eq, Debug, Structural)]
pub struct EmptyFontStack;

/// An ordered fallback chain. The first face that covers a cluster shapes it.
///
/// The chain is explicit and pinned rather than delegated to system fallback, which
/// resolves differently on every machine and makes bug reports unreproducible.
pub struct FontStack {
    faces: Vec<Face>,
}

impl FontStack {
    /// The faces, primary first.
    pub closed spec fn spec_faces(&self) -> Seq<Face> {
        self.faces@
    }

    /// A stack always has a primary face.
    #[verifier::type_invariant]
    closed spec fn inv(&self) -> bool {
        self.faces@.len() > 0
    }

    /// Build a stack from `faces`, primary first. Empty is an error.
    pub fn new(faces: Vec<Face>) -> (r: Result<Self, EmptyFontStack>)
        ensures
            match r {
                Ok(stack) => faces@.len() > 0 && stack.spec_faces() == faces@,
                Err(_) => faces@.len() == 0,
            },
    {
        if faces.len() == 0 {
            Err(EmptyFontStack)
        } else {
            Ok(FontStack { faces })
        }
    }

    #[must_use]
    pub fn primary(&self) -> (f: &Face)
        ensures
            self.spec_faces().len() > 0,
            *f == self.spec_faces()[0],
    {
        proof {
            use_type_invariant(self);
        }
        &self.faces[0]
    }

    #[must_use]
    pub fn faces(&self) -> (f: &[Face])
        ensures
            f@ == self.spec_faces(),
    {
        self.faces.as_slice()
    }

    /// The first face covering `cluster`, with its index.
    ///
    /// Falls back to the primary face when nothing covers it, so the caller renders
    /// tofu rather than nothing. A missing glyph is a visible bug; a missing cell is
    /// a silent one.
    #[must_use]
    pub fn resolve(&self, cluster: &str) -> (r: (usize, &Face))
        ensures
            r.0 < self.spec_faces().len(),
            *r.1 == self.spec_faces()[r.0 as int],
            forall|j: int| 0 <= j < r.0 ==> !(#[trigger] self.spec_faces()[j]).spec_covers(cluster@),
            (exists|j: int| 0 <= j < self.spec_faces().len() && (#[trigger] self.spec_faces()[j]).spec_covers(cluster@))
                ==> self.spec_faces()[r.0 as int].spec_covers(cluster@),
            !(exists|j: int| 0 <= j < self.spec_faces().len() && (#[trigger] self.spec_faces()[j]).spec_covers(cluster@))
                ==> r.0 == 0,
    {
        proof {
            use_type_invariant(self);
        }
        let mut i: usize = 0;
        while i < self.faces.len()
            invariant
                i <= self.faces@.len(),
                self.faces@.len() > 0,
                forall|j: int| 0 <= j < i ==> !(#[trigger] self.faces@[j]).spec_covers(cluster@),
            decreases self.faces@.len() - i,
        {
            if self.faces[i].covers(cluster) {
                assert(self.spec_faces()[i as int].spec_covers(cluster@));
                return (i, &self.faces[i]);
            }
            i = i + 1;
        }
        (0, &self.faces[0])
    }
}

/// One positioned glyph, in font design units.
#[derive(Clone, Copy, PartialEq, Eq, Debug, Structural)]
pub struct ShapedGlyph {
    pub glyph_id: u16,
    pub x_advance: i32,
    pub x_offset: i32,
    pub y_offset: i32,
}

impl ShapedGlyph {
    /// The `.notdef` glyph, drawn as tofu. Its presence means the face lacked a glyph.
    #[must_use]
    pub fn is_notdef(&self) -> (b: bool)
        ensures
            b == (self.glyph_id == 0),
    {
        self.glyph_id == 0
    }

    /// A glyph that advances nothing and hangs off its base.
    ///
    /// Bengali conjuncts are drawn this way: a base consonant plus below-forms and
    /// reph, each with zero advance and a negative offset. Counting glyphs therefore
    /// tells you nothing about how wide a cluster is; count advances instead.
    #[must_use]
    pub fn is_mark(&self) -> (b: bool)
        ensures
            b == (self.x_advance == 0),
    {
        self.x_advance == 0
    }
}

/// A glyph as the shaper reported it: the id is kept where it fits 16 bits, and is
/// the `.notdef` glyph otherwise.
pub open spec fn glyph_of(raw: (u32, i32, i32, i32)) -> ShapedGlyph {
    ShapedGlyph {
        glyph_id: if raw.0 <= u16::MAX as u32 { raw.0 as u16 } else { 0 },
        x_advance: raw.1,
        x_offset: raw.2,
        y_offset: raw.3,
    }
}

/// The sum of the advances.
pub open spec fn advance_sum(raw: Seq<(u32, i32, i32, i32)>) -> int
    decreases raw.len(),
{
    if raw.len() == 0 {
        0
    } else {
        advance_sum(raw.drop_last()) + raw.last().1
    }
}

/// `x` held to the range of `i32`.
pub open spec fn clamp_i32(x: int) -> i32 {
    if x > i32::MAX {
        i32::MAX
    } else if x < i32::MIN {
        i32::MIN
    } else {
        x as i32
    }
}

/// The number of glyphs with a nonzero advance.
pub open spec fn advancing_count(glyphs: Seq<ShapedGlyph>) -> nat
    decreases glyphs.len(),
{
    if glyphs.len() == 0 {
        0
    } else {
        advancing_count(glyphs.drop_last()) + if glyphs.last().x_advance != 0 { 1nat } else { 0nat }
    }
}

/// The result of shaping one grapheme cluster, in font design units.
#[derive(Clone, PartialEq, Eq, Debug)]
pub struct ShapedCluster {
    pub glyphs: Vec<ShapedGlyph>,
    /// Total advance the shaper wants. This is *not* the cell span.
    pub advance: i32,
    /// Index into the [`FontStack`] that shaped this cluster.
    pub face_index: usize,
}

impl ShapedCluster {
    /// The cluster the shaper's glyphs make: each glyph as reported, and the sum of
    /// their advances (held to `i32`).
    pub fn from_positions(raw: &Vec<(u32, i32, i32, i32)>, face_index: usize) -> (c: Self)
        ensures
            c.glyphs@ == raw@.map_values(|g: (u32, i32, i32, i32)| glyph_of(g)),
            c.advance == clamp_i32(advance_sum(raw@)),
            c.face_index == face_index,
    {
        let mut glyphs: Vec<ShapedGlyph> = Vec::new();
        let mut total: i128 = 0;
        let mut i: usize = 0;
        while i < raw.len()
            invariant
                i <= raw@.len(),
                glyphs@ == raw@.subrange(0, i as int).map_values(|g: (u32, i32, i32, i32)| glyph_of(g)),
                total == advance_sum(raw@.subrange(0, i as int)),
                -0x8000_0000 * i <= total <= 0x7fff_ffff * i,
            decreases raw@.len() - i,
        {
            assert(raw@.subrange(0, i + 1).drop_last() =~= raw@.subrange(0, i as int));
            let (id, x_advance, x_offset, y_offset) = raw[i];
            glyphs.push(ShapedGlyph {
                glyph_id: if id <= 0xffff { id as u16 } else { 0 },
                x_advance,
                x_offset,
                y_offset,
            });
            total = total + x_advance as i128;
            i = i + 1;
            assert(glyphs@ =~= raw@.subrange(0, i as int).map_values(|g: (u32, i32, i32, i32)| glyph_of(g)));
        }
        assert(raw@.subrange(0, raw@.len() as int) =~= raw@);
        let advance: i32 = if total > 0x7fff_ffff {
            0x7fff_ffff
        } else if total < -0x8000_0000 {
            -0x8000_0000
        } else {
            total as i32
        };
        ShapedCluster { glyphs, advance, face_index }
    }

    /// Whether any glyph is missing, meaning the chosen face could not draw this text.
    #[must_use]
    pub fn has_tofu(&self) -> (b: bool)
        ensures
            b == exists|i: int| 0 <= i < self.glyphs@.len() && (#[trigger] self.glyphs@[i]).glyph_id == 0,
    {
        let mut i: usize = 0;
        while i < self.glyphs.len()
            invariant
                i <= self.glyphs@.len(),
                forall|j: int| 0 <= j < i ==> (#[trigger] self.glyphs@[j]).glyph_id != 0,
            decreases self.glyphs@.len() - i,
        {
            if self.glyphs[i].is_notdef() {
                return true;
            }
            i = i + 1;
        }
        false
    }

    /// Glyphs that contribute width. Marks and below-forms do not.
    #[must_use]
    pub fn advancing_glyphs(&self) -> (n: usize)
        ensures
            n == advancing_count(self.glyphs@),
    {
        let mut n: usize = 0;
        let mut i: usize = 0;
        while i < self.glyphs.len()
            invariant
                i <= self.glyphs@.len(),
                n == advancing_count(self.glyphs@.subrange(0, i as int)),
                n <= i,
            decreases self.glyphs@.len() - i,
        {
            assert(self.glyphs@.subrange(0, i + 1).drop_last() =~= self.glyphs@.subrange(0, i as int));
            if !self.glyphs[i].is_mark() {
                n = n + 1;
            }
            i = i + 1;
        }
        assert(self.glyphs@.subrange(0, self.glyphs@.len() as int) =~= self.glyphs@);
        n
    }
}

/// Why shaping produced nothing.
#[derive(Clone, Copy, PartialEq, Eq, Debug, Structural)]
pub enum ShapeError {
    /// The shaper refused the text with this face.
    Failed,
}

/// Turns text into positioned glyphs.
///
/// Behind a trait so the engine can be swapped: another backend drops in without
/// touching callers.
pub trait Shaper {
    /// Shape one grapheme cluster with `face`.
    fn shape(&self, cluster: &str, face: &Face, face_index: usize) -> Result<ShapedCluster, ShapeError>;
}

/// Shaping via `harfrust`.
#[derive(Clone, Copy, PartialEq, Eq, Debug, Structural)]
pub struct HarfRustShaper;

impl Default for HarfRustShaper {
    fn default() -> (s: Self)
        ensures
            s == HarfRustShaper,
    {
        HarfRustShaper
    }
}

impl Shaper for HarfRustShaper {
    /// The cluster `harfrust` shapes, assembled by [`ShapedCluster::from_positions`].
    fn shape(&self, cluster: &str, face: &Face, face_index: usize) -> (r: Result<ShapedCluster, ShapeError>)
        ensures
            match spec_shape(face.spec_bytes(), cluster@) {
                Some(raw) => r matches Ok(c) && c.glyphs@ == raw.map_values(|g: (u32, i32, i32, i32)| glyph_of(g))
                    && c.advance == clamp_i32(advance_sum(raw)) && c.face_index == face_index,
                None => r is Err,
            },
    {
        match shape_raw(face, cluster) {
            Some(raw) => Ok(ShapedCluster::from_positions(&raw, face_index)),
            None => Err(ShapeError::Failed),
        }
    }
}

} // verus!
