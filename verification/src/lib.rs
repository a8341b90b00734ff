//! Transforms a paginated document into a visually normalized copy: every
//! near-white pixel of each rendered page is replaced with a configurable
//! background color, at a caller-selected rendering density, optionally
//! restricted to a sub-range of pages.
//!
//! This crate holds the verified core: page-range selection, quality-to-density
//! mapping, the background normalizer over raw pixel buffers, the progressive
//! transformation state machine, the streaming container format, and the host
//! message framing. Rendering, image encoding and document reassembly are done
//! by external libraries driven from outside this crate.

use vstd::prelude::*;
use vstd::string::StringSliceAdditionalSpecFns;

pub mod host;
pub mod pdf_to_images;
pub mod pdf_to_pdf;

verus! {

/// An 8-bit-per-channel RGB color. No alpha.
#[derive(Debug, Clone, Copy, PartialEq, Eq, Structural)]
pub struct Color {
    pub r: u8,
    pub g: u8,
    pub b: u8,
}

impl Color {
    pub fn new(r: u8, g: u8, b: u8) -> (c: Color)
        ensures
            c == (Color { r, g, b }),
    {
        Color { r, g, b }
    }
}

/// The background color used when a transformation is given none: a fixed
/// purple.
pub fn default_background_color() -> (c: Color)
    ensures
        c == (Color { r: 226u8, g: 97u8, b: 255u8 }),
{
    Color { r: 226, g: 97, b: 255 }
}

/// Rendering quality. Each level maps to a fixed pixel density, in pixels per
/// inch; the mapping is total and fixed.
#[derive(Debug, Clone, Copy, PartialEq, Eq, Structural)]
pub enum Quality {
    Extreme,
    High,
    Normal,
    Low,
    ExtremeLow,
}

impl Quality {
    /// The fixed pixel density, in pixels per inch, of this quality level.
    pub open spec fn spec_density_ppi(self) -> u32 {
        match self {
            Quality::Extreme => 400,
            Quality::High => 200,
            Quality::Normal => 120,
            Quality::Low => 72,
            Quality::ExtremeLow => 10,
        }
    }

    /// The fixed pixel density, in pixels per inch, of this quality level.
    pub fn density_ppi(self) -> (d: u32)
        ensures
            d == self.spec_density_ppi(),
    {
        match self {
            Quality::Extreme => 400,
            Quality::High => 200,
            Quality::Normal => 120,
            Quality::Low => 72,
            Quality::ExtremeLow => 10,
        }
    }

    /// The quality level a name denotes, or `None` for an unknown name.
    pub open spec fn spec_from_str(name: Seq<char>) -> Option<Quality> {
        if name == "extreme"@ {
            Some(Quality::Extreme)
        } else if name == "high"@ {
            Some(Quality::High)
        } else if name == "normal"@ {
            Some(Quality::Normal)
        } else if name == "low"@ {
            Some(Quality::Low)
        } else if name == "extremelow"@ {
            Some(Quality::ExtremeLow)
        } else {
            None
        }
    }

    pub fn from_str(src: &str) -> (q: Option<Quality>)
        ensures
            q == Quality::spec_from_str(src@),
    {
        if str_eq(src, "extreme") {
            Some(Quality::Extreme)
        } else if str_eq(src, "high") {
            Some(Quality::High)
        } else if str_eq(src, "normal") {
            Some(Quality::Normal)
        } else if str_eq(src, "low") {
            Some(Quality::Low)
        } else if str_eq(src, "extremelow") {
            Some(Quality::ExtremeLow)
        } else {
            None
        }
    }
}

/// Byte-for-byte equality of two slices.
pub fn bytes_eq(a: &[u8], b: &[u8]) -> (r: bool)
    ensures
        r == (a@ == b@),
{
    if a.len() != b.len() {
        assert(a@ != b@) by {
            assert(a@.len() != b@.len());
        }
        return false;
    }
    let n = a.len();
    let mut i: usize = 0;
    while i < n
        invariant
            n == a@.len(),
            n == b@.len(),
            i <= n,
            forall|j: int| 0 <= j < i ==> a@[j] == b@[j],
        decreases n - i,
    {
        if a[i] != b[i] {
            assert(a@ != b@);
            return false;
        }
        i += 1;
    }
    assert(a@ =~= b@);
    true
}

/// A byte-for-byte copy of a buffer.
pub fn clone_bytes(v: &Vec<u8>) -> (r: Vec<u8>)
    ensures
        r@ == v@,
{
    let mut r: Vec<u8> = Vec::new();
    let n = v.len();
    let mut i: usize = 0;
    while i < n
        invariant
            n == v@.len(),
            i <= n,
            r@ =~= v@.take(i as int),
        decreases n - i,
    {
        r.push(v[i]);
        i += 1;
        proof {
            assert(r@ =~= v@.take(i as int));
        }
    }
    assert(v@.take(n as int) =~= v@);
    r
}

/// Equality of two strings, decided on their UTF-8 bytes.
pub fn str_eq(a: &str, b: &str) -> (r: bool)
    ensures
        r == (a@ == b@),
{
    let r = bytes_eq(a.as_bytes(), b.as_bytes());
    proof {
        broadcast use vstd::utf8::encode_utf8_decode_utf8;

        if a.spec_bytes() == b.spec_bytes() {
            assert(vstd::utf8::decode_utf8(vstd::utf8::encode_utf8(a@)) == a@);
            assert(vstd::utf8::decode_utf8(vstd::utf8::encode_utf8(b@)) == b@);
        }
    }
    r
}

/// A half-open selection over zero-based page offsets. If `starting_index` is
/// greater than the index of the last page then no pages are included; if
/// `count` is greater than the number of pages available, as many pages as
/// possible are included.
#[derive(Debug, Clone, Copy, PartialEq, Eq, Structural)]
pub struct PageRange {
    /// Zero-based index of the first selected page.
    pub starting_index: usize,
    /// How many pages, at most, the range selects.
    pub count: usize,
}

impl PageRange {
    /// Whether the page `offset` positions past `starting_index` is selected,
    /// in a document of `pages_in_doc` pages: true exactly when `offset <
    /// count` and `starting_index + offset < pages_in_doc`.
    pub open spec fn spec_includes(self, offset: int, pages_in_doc: int) -> bool {
        offset < self.count && self.starting_index + offset < pages_in_doc
    }

    /// How many offsets the range includes in a document of `pages_in_doc`
    /// pages.
    pub open spec fn spec_included_count(self, pages_in_doc: int) -> int {
        if self.starting_index >= pages_in_doc {
            0
        } else if pages_in_doc - self.starting_index < self.count {
            pages_in_doc - self.starting_index
        } else {
            self.count as int
        }
    }

    pub fn includes(&self, offset: usize, pages_in_doc: usize) -> (r: bool)
        ensures
            r == self.spec_includes(offset as int, pages_in_doc as int),
            r == !(offset >= self.count || self.starting_index + offset >= pages_in_doc),
    {
        if offset >= self.count {
            return false;
        }
        if self.starting_index >= pages_in_doc {
            return false;
        }
        offset < pages_in_doc - self.starting_index
    }

    /// An offset is included exactly when it lies below the number of included
    /// offsets: the range selects a contiguous block starting at offset zero.
    pub proof fn lemma_includes_iff_below_count(self, offset: int, pages_in_doc: int)
        requires
            offset >= 0,
        ensures
            self.spec_includes(offset, pages_in_doc) <==> offset < self.spec_included_count(
                pages_in_doc,
            ),
    {
    }

    /// The number of included offsets, computed.
    pub fn included_count(&self, pages_in_doc: usize) -> (n: usize)
        ensures
            n == self.spec_included_count(pages_in_doc as int),
    {
        if self.starting_index >= pages_in_doc {
            0
        } else if pages_in_doc - self.starting_index < self.count {
            pages_in_doc - self.starting_index
        } else {
            self.count
        }
    }
}

/// Everything that can go wrong while transforming a document. Payloads that
/// the external libraries produce (a render failure, a serialization failure)
/// are carried as their human-readable messages.
#[derive(Debug)]
pub enum TransformationError {
    /// Malformed input to the host message layer.
    Receiving(String),
    /// The external renderer failed to read the document.
    Render(String),
    /// Some unknown error while rasterizing the document.
    Unknown,
    /// The requested page does not exist.
    NonexistentPage(usize),
    /// The pixels of a rendered page could not be read back.
    PixelRead(String),
    /// A rendered buffer could not be reinterpreted as an image of the
    /// expected dimensions.
    InsufficientMemory,
    /// The transformed pages could not be reassembled into a document.
    PdfWrite(String),
    /// The document has no pages.
    ZeroPagePdf,
    /// A transformed page could not be encoded as a compressed image.
    ImageEncoding(String),
}

/// How a transformation is performed: fixed once it begins.
#[derive(Debug, Clone, Copy)]
pub struct TransformationStateOptions {
    pub quality: Quality,
    pub background_color: Color,
    pub page_range: PageRange,
}

/// What is known of a loaded document, and how it is to be transformed. The
/// document handle itself lives with the renderer, outside this crate; this
/// state carries the facts the transformation logic reads: the title, the page
/// count and the options. `page_count` is at least one (see [`Self::wf`]);
/// nothing here is mutated after construction.
#[derive(Debug, Clone)]
pub struct TransformationState {
    pub original_title: String,
    pub page_count: usize,
    pub options: TransformationStateOptions,
}

impl TransformationState {
    /// Well-formed states have at least one page: construction rejects a
    /// zero-page document.
    pub open spec fn wf(&self) -> bool {
        self.page_count >= 1
    }

    /// Builds the state for a freshly loaded document of `page_count` pages.
    /// Fails with the zero-page error when `page_count` is zero, and never
    /// otherwise. An unset page range becomes "all pages"; an unset background
    /// color becomes the default purple.
    pub fn try_new(
        original_title: String,
        page_count: usize,
        selected_page_range: Option<PageRange>,
        quality: Quality,
        background_color: Option<Color>,
    ) -> (r: Result<TransformationState, TransformationError>)
        ensures
            r is Ok <==> page_count > 0,
            r matches Ok(s) ==> {
                &&& s.wf()
                &&& s.original_title == original_title
                &&& s.page_count == page_count
                &&& s.options.quality == quality
                &&& s.options.background_color == if background_color is Some {
                    background_color->0
                } else {
                    Color { r: 226u8, g: 97u8, b: 255u8 }
                }
                &&& s.options.page_range == if selected_page_range is Some {
                    selected_page_range->0
                } else {
                    PageRange { starting_index: 0, count: page_count }
                }
            },
            r matches Err(e) ==> e is ZeroPagePdf,
    {
        if page_count == 0 {
            return Err(TransformationError::ZeroPagePdf);
        }
        let page_range = match selected_page_range {
            Some(range) => range,
            None => PageRange { starting_index: 0, count: page_count },
        };
        let background_color = match background_color {
            Some(color) => color,
            None => default_background_color(),
        };
        let options = TransformationStateOptions { quality, background_color, page_range };
        Ok(TransformationState { original_title, page_count, options })
    }

    pub fn original_title(&self) -> (t: String)
        ensures
            t@ == self.original_title@,
    {
        self.original_title.clone()
    }

    pub fn page_count(&self) -> (n: usize)
        ensures
            n == self.page_count,
    {
        self.page_count
    }

    /// Whether the configured page range selects the page `offset` positions
    /// past its start, in this document.
    pub fn includes_offset(&self, offset: usize) -> (r: bool)
        ensures
            r == self.options.page_range.spec_includes(offset as int, self.page_count as int),
    {
        self.options.page_range.includes(offset, self.page_count)
    }

    /// Resolves `offset` against the configured starting index to an absolute
    /// page index. Fails with the out-of-bounds page error exactly when that
    /// index is at or beyond `page_count`.
    pub fn page_index_for_offset(&self, offset: usize) -> (r: Result<usize, TransformationError>)
        requires
            self.wf(),
            self.options.page_range.starting_index + offset <= usize::MAX,
        ensures
            r is Ok <==> self.options.page_range.starting_index + offset < self.page_count,
            r matches Ok(i) ==> i == self.options.page_range.starting_index + offset,
            r matches Err(e) ==> e == TransformationError::NonexistentPage(
                (self.options.page_range.starting_index + offset) as usize,
            ),
    {
        let page_num = self.options.page_range.starting_index + offset;
        if page_num > self.page_count - 1 {
            return Err(TransformationError::NonexistentPage(page_num));
        }
        Ok(page_num)
    }
}

/// Relies on `std::error::Error::source` and `Debug` formatting: walks the
/// error's chain of sources and returns the debug rendering of each one,
/// outermost source first. The chain and the renderings are the error
/// implementation's own, so nothing can be stated of the result here.
#[verifier::external_body]
pub fn list_error_sources<E: std::error::Error + ?Sized>(error: &E) -> Vec<String> {
    match error.source() {
        Some(source) => {
            let mut sources = vec![format!("{:?}", source)];
            sources.extend(list_error_sources(source));
            sources
        },
        None => vec![],
    }
}

/// How far a pixel's first three channels lie from pure white: the largest
/// per-channel absolute difference ("queen-wise" distance).
pub open spec fn dissimilarity_from_white(c0: u8, c1: u8, c2: u8) -> int {
    vstd::math::max(255 - c0, vstd::math::max(255 - c1, 255 - c2))
}

/// Background classification: a pixel counts as background exactly when its
/// queen-wise distance from white is strictly below 90. The threshold is a
/// fixed policy constant, not a tunable heuristic.
pub open spec fn is_background_spec(c0: u8, c1: u8, c2: u8) -> bool {
    dissimilarity_from_white(c0, c1, c2) < 90
}

/// A pixel is background exactly when every one of its three color channels is
/// at least 166; one channel at or below 165 excludes it.
pub proof fn lemma_background_iff_channels_near_white(c0: u8, c1: u8, c2: u8)
    ensures
        is_background_spec(c0, c1, c2) <==> (166 <= c0 && 166 <= c1 && 166 <= c2),
{
}

/// Classifies the pixel that starts `pixel`: its first three bytes are the
/// color channels (blue, green, red, in the renderer's layout); anything after
/// them is ignored.
pub fn is_background(pixel: &[u8]) -> (r: bool)
    requires
        pixel@.len() >= 3,
    ensures
        r == is_background_spec(pixel@[0], pixel@[1], pixel@[2]),
{
    let d0: u16 = 255 - (pixel[0] as u16);
    let d1: u16 = 255 - (pixel[1] as u16);
    let d2: u16 = 255 - (pixel[2] as u16);
    let mut dissimilarity = d0;
    if d1 > dissimilarity {
        dissimilarity = d1;
    }
    if d2 > dissimilarity {
        dissimilarity = d2;
    }
    dissimilarity < 90
}

/// What one byte of a pixel buffer holds after background normalization
/// against `bg`. Pixels are 4 bytes each, channel order blue, green, red,
/// alpha; a background pixel's three color channels take the target color's
/// blue, green and red bytes, its alpha byte and every non-background pixel
/// stay as they were, and trailing bytes after the last complete pixel are
/// left untouched.
pub open spec fn normalized_byte(data: Seq<u8>, bg: Color, i: int) -> u8 {
    let p = 4 * (i / 4);
    if i % 4 == 3 || p + 4 > data.len() {
        data[i]
    } else if is_background_spec(data[p], data[p + 1], data[p + 2]) {
        if i % 4 == 0 {
            bg.b
        } else if i % 4 == 1 {
            bg.g
        } else {
            bg.r
        }
    } else {
        data[i]
    }
}

/// Rewrites the three color channels of the complete pixel starting at byte
/// `start` with the target color's blue, green and red bytes, when that pixel
/// is classified as background; otherwise leaves the buffer as it was. The
/// alpha byte is never touched.
pub fn transform_pixel(data: &mut Vec<u8>, start: usize, background_color: Color)
    requires
        start + 4 <= old(data)@.len(),
        start % 4 == 0,
    ensures
        final(data)@.len() == old(data)@.len(),
        forall|j: int|
            0 <= j < final(data)@.len() && !(start <= j < start + 3) ==> final(data)@[j] == old(
                data,
            )@[j],
        ({
            let was_background = is_background_spec(
                old(data)@[start as int],
                old(data)@[start as int + 1],
                old(data)@[start as int + 2],
            );
            &&& final(data)@[start as int] == if was_background {
                background_color.b
            } else {
                old(data)@[start as int]
            }
            &&& final(data)@[start as int + 1] == if was_background {
                background_color.g
            } else {
                old(data)@[start as int + 1]
            }
            &&& final(data)@[start as int + 2] == if was_background {
                background_color.r
            } else {
                old(data)@[start as int + 2]
            }
        }),
{
    let n = data.len();
    assert(start + 4 <= n);
    let pixel: &[u8] = &data.as_slice()[start..start + 4];
    if is_background(pixel) {
        data[start] = background_color.b;
        data[start + 1] = background_color.g;
        data[start + 2] = background_color.r;
    }
}

/// Normalizes a raw interleaved pixel buffer in place: every complete 4-byte
/// pixel classified as background has its color channels replaced with the
/// target color; everything else, the alpha bytes and any trailing bytes after
/// the last complete pixel included, stays as it was.
pub fn transform_page_data(img_data: &mut Vec<u8>, background_color: Color)
    ensures
        final(img_data)@.len() == old(img_data)@.len(),
        forall|i: int|
            0 <= i < final(img_data)@.len() ==> final(img_data)@[i] == normalized_byte(
                old(img_data)@,
                background_color,
                i,
            ),
{
    let n = img_data.len();
    let pixel_count = n / 4;
    let mut p: usize = 0;
    while p < pixel_count
        invariant
            n == img_data@.len(),
            n == old(img_data)@.len(),
            pixel_count == n / 4,
            p <= pixel_count,
            forall|i: int|
                0 <= i < 4 * p ==> img_data@[i] == normalized_byte(
                    old(img_data)@,
                    background_color,
                    i,
                ),
            forall|i: int| 4 * p <= i < n ==> img_data@[i] == old(img_data)@[i],
        decreases pixel_count - p,
    {
        let start = 4 * p;
        assert(start + 4 <= n);
        let ghost before = img_data@;
        transform_pixel(img_data, start, background_color);
        proof {
            assert forall|i: int| 0 <= i < 4 * (p + 1) implies img_data@[i] == normalized_byte(
                old(img_data)@,
                background_color,
                i,
            ) by {
                if 4 * p <= i < 4 * (p + 1) {
                    assert(i / 4 == p) by (nonlinear_arith)
                        requires
                            4 * p <= i < 4 * (p + 1),
                            p >= 0,
                    ;
                    assert(before[4 * p as int] == old(img_data)@[4 * p as int]);
                    assert(before[4 * p + 1] == old(img_data)@[4 * p + 1]);
                    assert(before[4 * p + 2] == old(img_data)@[4 * p + 2]);
                }
            }
        }
        p += 1;
    }
    proof {
        assert forall|i: int| 0 <= i < n implies img_data@[i] == normalized_byte(
            old(img_data)@,
            background_color,
            i,
        ) by {
            if i >= 4 * pixel_count {
                assert(4 * (i / 4) + 4 > n) by (nonlinear_arith)
                    requires
                        4 * (n as int / 4) <= i < n,
                        n >= 0,
                ;
            }
        }
    }
}

} // verus!
