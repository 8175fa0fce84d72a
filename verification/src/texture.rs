//! Textures and the texture cache.
//!
//! A texture is an opaque GPU handle plus a type tag. The cache maps a source
//! path to the texture decoded from it, first insert wins, so a given path is
//! decoded and uploaded at most once for the lifetime of the cache. Image
//! decoding is delegated to an outside decoder working on in-memory bytes; the
//! vertical flip the upload convention asks for is performed here, verified.
use vstd::prelude::*;

use crate::errors::ERRUranXError;

verus! {

/// The role a texture plays in the material model.
#[derive(Debug, Clone, Copy, PartialEq, Eq, Structural)]
pub enum TextureKind {
    Diffuse,
    Specular,
}

/// An opaque GPU texture handle together with its type tag. Owned by the
/// cache and shared by value with every mesh that uses it.
#[derive(Debug, Clone, Copy, PartialEq, Eq, Structural)]
pub struct Texture {
    pub texture_id: u32,
    pub texture_type: TextureKind,
}

impl Texture {
    pub fn new(texture_id: u32, texture_type: TextureKind) -> (t: Self)
        ensures
            t.texture_id == texture_id,
            t.texture_type == texture_type,
    {
        Texture { texture_id, texture_type }
    }
}

/// A decoded, vertically flipped 8-bit RGB image, ready for upload.
#[derive(Debug, Clone)]
pub struct TextureImage {
    pub width: u32,
    pub height: u32,
    pub pixels: Vec<u8>,
}

impl TextureImage {
    /// Three bytes for each of width times height pixels.
    pub open spec fn wf(&self) -> bool {
        self.pixels@.len() == 3 * (self.width as int) * (self.height as int)
    }
}

/// The pixel dimensions and row-major 8-bit RGB samples of the image encoded
/// in the bytes, when they decode: what the outside decoder computes.
pub uninterp spec fn rgb8_of(data: Seq<u8>) -> Option<(u32, u32, Seq<u8>)>;

/// Relies on image::load_from_memory and image::DynamicImage::to_rgb8: the
/// outcome is a function of the bytes alone, and a successfully decoded image
/// yields its dimensions and a buffer holding exactly three bytes per pixel.
#[verifier::external_body]
fn decode_rgb8(data: &Vec<u8>) -> (r: Option<(u32, u32, Vec<u8>)>)
    ensures
        r matches Some((width, height, pixels)) ==> {
            &&& rgb8_of(data@) == Some((width, height, pixels@))
            &&& pixels@.len() == 3 * (width as int) * (height as int)
        },
        r is None ==> rgb8_of(data@) is None,
{
    match image::load_from_memory(data) {
        Ok(img) => {
            let width = img.width();
            let height = img.height();
            Some((width, height, img.to_rgb8().into_raw()))
        },
        Err(_) => None,
    }
}

/// Source position of the byte that lands at position `n` when the row order
/// of a `height` by `3 * width` byte grid is reversed.
pub open spec fn flip_index(width: int, height: int, n: int) -> int {
    let row = n / (3 * width);
    let k = n % (3 * width);
    (height - 1 - row) * (3 * width) + k
}

/// Row `row` of the output is row `height - 1 - row` of the input.
pub open spec fn flipped_rows(width: int, height: int, before: Seq<u8>, after: Seq<u8>) -> bool {
    &&& after.len() == before.len()
    &&& forall|n: int|
        0 <= n < after.len() ==> after[n] == before[flip_index(width, height, n)]
}

/// Reverses the row order of a row-major 8-bit RGB buffer.
pub fn flip_vertical(width: u32, height: u32, pixels: &Vec<u8>) -> (r: Vec<u8>)
    requires
        pixels@.len() == 3 * (width as int) * (height as int),
    ensures
        flipped_rows(width as int, height as int, pixels@, r@),
{
    let mut r: Vec<u8> = Vec::new();
    if height == 0 || width == 0 {
        proof {
            assert(pixels@.len() == 0) by (nonlinear_arith)
                requires
                    pixels@.len() == 3 * (width as int) * (height as int),
                    width == 0 || height == 0,
            ;
        }
        return r;
    }
    let total: usize = pixels.len();
    proof {
        assert(3 * (width as int) <= total) by (nonlinear_arith)
            requires
                total == 3 * (width as int) * (height as int),
                1 <= width,
                1 <= height,
        ;
    }
    let row_len: usize = 3 * (width as usize);
    let mut row: usize = 0;
    while row < height as usize
        invariant
            row <= height,
            0 < row_len,
            total == pixels@.len(),
            row_len == 3 * (width as int),
            row_len * (height as int) == pixels@.len(),
            r@.len() == row * row_len,
            forall|n: int|
                0 <= n < r@.len() ==> r@[n] == pixels@[flip_index(width as int, height as int, n)],
        decreases height as int - row,
    {
        let src_row: usize = (height as usize) - 1 - row;
        assert(src_row * row_len + row_len <= total && row * row_len + row_len <= total)
            by (nonlinear_arith)
            requires
                src_row == height - 1 - row,
                row < height,
                0 < row_len,
                row_len * (height as int) == total,
        ;
        let base: usize = src_row * row_len;
        let mut k: usize = 0;
        while k < row_len
            invariant
                k <= row_len,
                base == src_row * row_len,
                src_row == height as int - 1 - row,
                row < height,
                0 < row_len,
                total == pixels@.len(),
                base + row_len <= pixels@.len(),
                row * row_len + row_len <= pixels@.len(),
                row_len == 3 * (width as int),
                row_len * (height as int) == pixels@.len(),
                r@.len() == row * row_len + k,
                forall|n: int|
                    0 <= n < r@.len() ==> r@[n] == pixels@[flip_index(
                        width as int,
                        height as int,
                        n,
                    )],
            decreases row_len as int - k,
        {
            let ghost n = r@.len() as int;
            r.push(pixels[base + k]);
            proof {
                vstd::arithmetic::div_mod::lemma_fundamental_div_mod_converse(
                    n,
                    row_len as int,
                    row as int,
                    k as int,
                );
                assert(flip_index(width as int, height as int, n) == base + k);
            }
            k = k + 1;
        }
        proof {
            assert((row as int + 1) * row_len == row as int * row_len + row_len)
                by (nonlinear_arith);
        }
        row = row + 1;
    }
    proof {
        assert((height as int) * row_len == row_len * (height as int)) by (nonlinear_arith);
    }
    r
}

/// Decodes an image from in-memory bytes and flips it vertically, per the
/// texture-coordinate convention of the upload path. Exactly the byte
/// sequences the decoder accepts succeed; a decode failure is the recoverable
/// per-asset error.
pub fn decode_texture(data: &Vec<u8>) -> (r: Result<TextureImage, ERRUranXError>)
    ensures
        r is Ok <==> rgb8_of(data@) is Some,
        r matches Ok(img) ==> {
            &&& img.wf()
            &&& rgb8_of(data@) matches Some((width, height, raw)) && img.width == width
                && img.height == height && flipped_rows(
                width as int,
                height as int,
                raw,
                img.pixels@,
            )
        },
        r matches Err(e) ==> e == ERRUranXError::ASSET_DECODE_ERROR,
{
    match decode_rgb8(data) {
        Some((width, height, pixels)) => {
            let flipped = flip_vertical(width, height, &pixels);
            Ok(TextureImage { width, height, pixels: flipped })
        },
        None => Err(ERRUranXError::ASSET_DECODE_ERROR),
    }
}

/// One cache entry: the source path and the texture decoded from it.
#[derive(Debug)]
pub struct CacheEntry {
    pub path: String,
    pub texture: Texture,
}

/// First texture stored under the path, scanning left to right.
pub open spec fn seq_get(entries: Seq<CacheEntry>, path: Seq<char>) -> Option<Texture>
    decreases entries.len(),
{
    if entries.len() == 0 {
        None
    } else if entries[0].path@ == path {
        Some(entries[0].texture)
    } else {
        seq_get(entries.drop_first(), path)
    }
}

/// No two entries share a path.
pub open spec fn keys_distinct(entries: Seq<CacheEntry>) -> bool {
    forall|i: int, j: int| 0 <= i < j < entries.len() ==> entries[i].path@ != entries[j].path@
}

/// Pushing an entry never disturbs a path that is already cached: a hit keeps
/// its first texture, only an absent path picks the new entry up.
pub proof fn lemma_get_after_push(entries: Seq<CacheEntry>, entry: CacheEntry, path: Seq<char>)
    ensures
        seq_get(entries.push(entry), path) == (if seq_get(entries, path) is Some {
            seq_get(entries, path)
        } else if entry.path@ == path {
            Some(entry.texture)
        } else {
            None
        }),
    decreases entries.len(),
{
    let pushed = entries.push(entry);
    assert(pushed.len() == entries.len() + 1);
    if entries.len() == 0 {
        assert(pushed[0] == entry);
        assert(seq_get(entries, path) is None);
        if entry.path@ != path {
            assert(pushed.drop_first() =~= Seq::<CacheEntry>::empty());
            assert(seq_get(Seq::<CacheEntry>::empty(), path) is None);
            assert(seq_get(pushed, path) is None);
        } else {
            assert(seq_get(pushed, path) == Some(entry.texture));
        }
    } else {
        assert(pushed[0] == entries[0]);
        assert(pushed.drop_first() =~= entries.drop_first().push(entry));
        lemma_get_after_push(entries.drop_first(), entry, path);
        if entries[0].path@ == path {
            assert(seq_get(pushed, path) == Some(entries[0].texture));
            assert(seq_get(entries, path) == Some(entries[0].texture));
        } else {
            assert(seq_get(pushed, path) == seq_get(entries.drop_first().push(entry), path));
            assert(seq_get(entries, path) == seq_get(entries.drop_first(), path));
        }
    }
}

/// An absent path means no entry carries it.
pub proof fn lemma_get_none_means_absent(entries: Seq<CacheEntry>, path: Seq<char>)
    ensures
        seq_get(entries, path) is None <==> (forall|i: int|
            0 <= i < entries.len() ==> entries[i].path@ != path),
    decreases entries.len(),
{
    if entries.len() > 0 {
        lemma_get_none_means_absent(entries.drop_first(), path);
        assert(forall|i: int|
            1 <= i < entries.len() ==> entries[i] == entries.drop_first()[i - 1]);
    }
}

/// Path-keyed texture cache with first-insert-wins semantics.
#[derive(Debug)]
pub struct TextureCache {
    entries: Vec<CacheEntry>,
}

impl View for TextureCache {
    type V = Seq<CacheEntry>;

    closed spec fn view(&self) -> Seq<CacheEntry> {
        self.entries@
    }
}

impl TextureCache {
    /// Keys are unique, which makes first-insert-wins meaningful.
    pub open spec fn wf(&self) -> bool {
        keys_distinct(self@)
    }

    /// The texture cached under the path, if any.
    pub open spec fn spec_get(&self, path: Seq<char>) -> Option<Texture> {
        seq_get(self@, path)
    }

    pub fn new() -> (c: Self)
        ensures
            c@ == Seq::<CacheEntry>::empty(),
            c.wf(),
    {
        TextureCache { entries: Vec::new() }
    }

    /// The number of distinct paths cached so far.
    pub fn len(&self) -> (n: usize)
        ensures
            n == self@.len(),
    {
        self.entries.len()
    }

    pub fn get(&self, path: &String) -> (r: Option<Texture>)
        ensures
            r == self.spec_get(path@),
    {
        let n = self.entries.len();
        proof {
            assert(self@.skip(0) =~= self@);
        }
        let mut i: usize = 0;
        while i < n
            invariant
                i <= n,
                n == self@.len(),
                self@ == self.entries@,
                seq_get(self@, path@) == seq_get(self@.skip(i as int), path@),
            decreases n - i,
        {
            proof {
                assert(self@.skip(i as int)[0] == self@[i as int]);
                assert(self@.skip(i as int).drop_first() =~= self@.skip(i as int + 1));
            }
            if self.entries[i].path == *path {
                return Some(self.entries[i].texture);
            }
            i = i + 1;
        }
        proof {
            assert(self@.skip(n as int) =~= Seq::<CacheEntry>::empty());
        }
        None
    }

    /// Stores the texture under the path unless the path is already cached;
    /// either way the texture now cached under the path comes back, so the
    /// first insert wins and later inserts change nothing.
    pub fn insert(&mut self, path: String, texture: Texture) -> (r: Texture)
        requires
            old(self).wf(),
        ensures
            final(self).wf(),
            old(self).spec_get(path@) matches Some(t) ==> r == t && final(self)@ == old(self)@,
            old(self).spec_get(path@) is None ==> r == texture && final(self)@ == old(
                self,
            )@.push((CacheEntry { path, texture })),
            final(self).spec_get(path@) == Some(r),
    {
        let cached = self.get(&path);
        match cached {
            Some(t) => t,
            None => {
                proof {
                    lemma_get_none_means_absent(self@, path@);
                }
                let entry = CacheEntry { path, texture };
                proof {
                    lemma_get_after_push(self@, entry, entry.path@);
                }
                let ghost before = self@;
                self.entries.push(entry);
                proof {
                    assert forall|i: int, j: int| 0 <= i < j < self@.len() implies self@[i].path@
                        != self@[j].path@ by {
                        if j < before.len() {
                            assert(self@[i] == before[i] && self@[j] == before[j]);
                        } else {
                            assert(self@[i] == before[i]);
                        }
                    }
                }
                texture
            },
        }
    }
}

} // verus!
