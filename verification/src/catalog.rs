//! The catalog of embedded programs.
//!
//! The image starts with an 8-byte program count `N`, then `N + 1` offsets
//! of 8 bytes each, then the programs themselves. Program `i` occupies the
//! bytes from offset `i` up to, but not including, offset `i + 1`. All words
//! are little-endian, as the hart reads them.

use vstd::prelude::*;

verus! {

/// The value of eight bytes read as a little-endian word.
pub open spec fn le_word(bytes: Seq<u8>) -> int {
    bytes[0] as int + 0x100 * (bytes[1] as int) + 0x1_0000 * (bytes[2] as int) + 0x100_0000 * (
    bytes[3] as int) + 0x1_0000_0000 * (bytes[4] as int) + 0x100_0000_0000 * (bytes[5] as int)
        + 0x1_0000_0000_0000 * (bytes[6] as int) + 0x100_0000_0000_0000 * (bytes[7] as int)
}

/// The `k`-th 8-byte word of `image`.
pub open spec fn word_at(image: Seq<u8>, k: int) -> int {
    le_word(image.subrange(8 * k, 8 * k + 8))
}

/// The number of programs that `image` declares.
pub open spec fn declared_count(image: Seq<u8>) -> int {
    word_at(image, 0)
}

/// The `i`-th boundary offset of `image`.
pub open spec fn boundary(image: Seq<u8>, i: int) -> int {
    word_at(image, i + 1)
}

/// True when `image` is too short to hold its count and all its offsets.
pub open spec fn truncated(image: Seq<u8>) -> bool {
    image.len() < 8 || 8 * (declared_count(image) + 2) > image.len()
}

/// True when the offsets of `image` grow strictly from each one to the next.
pub open spec fn increasing(image: Seq<u8>) -> bool {
    forall|i: int, j: int|
        0 <= i < j <= declared_count(image) ==> #[trigger] boundary(image, i) < #[trigger] boundary(
            image,
            j,
        )
}

/// What is wrong with an image.
#[derive(Clone, Copy, Debug, PartialEq, Eq, Structural)]
pub enum CatalogError {
    /// The image ends before its table of offsets does.
    Truncated,
    /// An offset is not greater than the one before it.
    NotIncreasing,
    /// The last offset lies beyond the end of the image.
    OutOfBounds,
}

/// The defect of `image`, or `None` when it holds a usable table.
pub open spec fn image_defect(image: Seq<u8>) -> Option<CatalogError> {
    if truncated(image) {
        Some(CatalogError::Truncated)
    } else if !increasing(image) {
        Some(CatalogError::NotIncreasing)
    } else if boundary(image, declared_count(image)) > image.len() {
        Some(CatalogError::OutOfBounds)
    } else {
        None
    }
}

/// The byte range of one program within the image.
#[derive(Clone, Copy, Debug, PartialEq, Eq, Structural)]
pub struct CatalogEntry {
    /// Offset of the program's first byte.
    pub start_offset: usize,
    /// Offset just past the program's last byte.
    pub end_offset: usize,
}

impl CatalogEntry {
    /// The number of bytes in the range.
    pub open spec fn spec_length(&self) -> int {
        self.end_offset - self.start_offset
    }

    /// The number of bytes in the range.
    pub fn length(&self) -> (n: usize)
        requires
            self.start_offset <= self.end_offset,
        ensures
            n == self.spec_length(),
    {
        self.end_offset - self.start_offset
    }
}

/// The table that a sound image declares: one entry for each program, in
/// the order of the program indices.
pub open spec fn image_entries(image: Seq<u8>) -> Seq<CatalogEntry> {
    Seq::new(
        declared_count(image) as nat,
        |i: int|
            CatalogEntry {
                start_offset: boundary(image, i) as usize,
                end_offset: boundary(image, i + 1) as usize,
            },
    )
}

/// The image together with its table of programs. A value of this type is
/// only made by [`Catalog::parse`], so it always satisfies [`Catalog::wf`].
#[derive(Debug)]
pub struct Catalog {
    image: Vec<u8>,
    entries: Vec<CatalogEntry>,
}

impl View for Catalog {
    type V = Seq<CatalogEntry>;

    /// The entries, in the order of the program indices.
    closed spec fn view(&self) -> Seq<CatalogEntry> {
        self.entries@
    }
}

impl Catalog {
    /// The bytes of the image that the catalog was read from.
    pub closed spec fn image(&self) -> Seq<u8> {
        self.image@
    }

    /// The image is sound and the entries are those that it declares.
    pub open spec fn wf(&self) -> bool {
        &&& image_defect(self.image()) is None
        &&& self.image().len() <= usize::MAX
        &&& self@ == image_entries(self.image())
    }

    /// The number of programs.
    pub open spec fn spec_count(&self) -> nat {
        self@.len()
    }

    /// The bytes of program `i`.
    pub open spec fn spec_program(&self, i: int) -> Seq<u8> {
        self.image().subrange(self@[i].start_offset as int, self@[i].end_offset as int)
    }

    /// Reads the table at the head of `image`. Fails exactly when the image
    /// has a defect, and then names it.
    pub fn parse(image: Vec<u8>) -> (r: Result<Catalog, CatalogError>)
        ensures
            match r {
                Ok(catalog) => {
                    &&& image_defect(image@) is None
                    &&& catalog.wf()
                    &&& catalog.image() == image@
                    &&& catalog@ == image_entries(image@)
                },
                Err(e) => image_defect(image@) == Some(e),
            },
    {
        let len: usize = image.len();
        if len < 8 {
            return Err(CatalogError::Truncated);
        }
        let words: usize = len / 8;
        let declared: u64 = read_word(image.as_slice(), 0);
        if words < 2 || declared > (words - 2) as u64 {
            return Err(CatalogError::Truncated);
        }
        let count: usize = declared as usize;
        // First pass: every offset is greater than the one before it.
        let mut k: usize = 0;
        while k < count
            invariant
                k <= count,
                count == declared_count(image@),
                8 * (count + 2) <= image@.len(),
                len == image@.len(),
                forall|i: int, j: int|
                    0 <= i < j <= k ==> #[trigger] boundary(image@, i) < #[trigger] boundary(
                        image@,
                        j,
                    ),
            decreases count - k,
        {
            let low: u64 = read_word(image.as_slice(), k + 1);
            let high: u64 = read_word(image.as_slice(), k + 2);
            if low >= high {
                proof {
                    let ki = k as int;
                    assert(boundary(image@, ki) >= boundary(image@, ki + 1));
                }
                return Err(CatalogError::NotIncreasing);
            }
            proof {
                let ki = k as int;
                assert forall|i: int, j: int| 0 <= i < j <= ki + 1 implies #[trigger] boundary(
                    image@,
                    i,
                ) < #[trigger] boundary(image@, j) by {
                    if j == ki + 1 && i < ki {
                        assert(boundary(image@, i) < boundary(image@, ki));
                    }
                }
            }
            k = k + 1;
        }
        let last: u64 = read_word(image.as_slice(), count + 1);
        if last > len as u64 {
            return Err(CatalogError::OutOfBounds);
        }
        // Second pass: every offset now fits, so the entries can be made.
        let mut entries: Vec<CatalogEntry> = Vec::new();
        let mut i: usize = 0;
        while i < count
            invariant
                i <= count,
                count == declared_count(image@),
                8 * (count + 2) <= image@.len(),
                len == image@.len(),
                increasing(image@),
                boundary(image@, count as int) <= len,
                entries@.len() == i,
                forall|p: int| 0 <= p < i ==> entries@[p] == image_entries(image@)[p],
            decreases count - i,
        {
            let low: u64 = read_word(image.as_slice(), i + 1);
            let high: u64 = read_word(image.as_slice(), i + 2);
            proof {
                let ii = i as int;
                if ii + 1 < count {
                    assert(boundary(image@, ii + 1) < boundary(image@, count as int));
                }
            }
            entries.push(CatalogEntry { start_offset: low as usize, end_offset: high as usize });
            i = i + 1;
        }
        assert(entries@ =~= image_entries(image@));
        Ok(Catalog { image, entries })
    }

    /// The number of programs.
    pub fn count(&self) -> (n: usize)
        ensures
            n == self.spec_count(),
    {
        self.entries.len()
    }

    /// The byte range of program `i`.
    pub fn entry(&self, i: usize) -> (e: CatalogEntry)
        requires
            i < self.spec_count(),
        ensures
            e == self@[i as int],
    {
        self.entries[i]
    }

    /// The bytes of program `i`.
    pub fn program(&self, i: usize) -> (bytes: &[u8])
        requires
            self.wf(),
            i < self.spec_count(),
        ensures
            bytes@ == self.spec_program(i as int),
            bytes@.len() == self@[i as int].spec_length(),
    {
        let e = self.entries[i];
        proof {
            lemma_entries_in_bounds(self.image(), i as int);
        }
        vstd::slice::slice_subrange(self.image.as_slice(), e.start_offset, e.end_offset)
    }
}

/// Reads the `k`-th 8-byte word of `image`.
pub fn read_word(image: &[u8], k: usize) -> (w: u64)
    requires
        8 * (k + 1) <= image@.len(),
    ensures
        w == word_at(image@, k as int),
{
    // The length of a slice fits a `usize`, and so does every position in it.
    let len: usize = image.len();
    assert(8 * k + 8 <= len);
    let at: usize = 8 * k;
    let b0: u64 = image[at] as u64;
    let b1: u64 = image[at + 1] as u64;
    let b2: u64 = image[at + 2] as u64;
    let b3: u64 = image[at + 3] as u64;
    let b4: u64 = image[at + 4] as u64;
    let b5: u64 = image[at + 5] as u64;
    let b6: u64 = image[at + 6] as u64;
    let b7: u64 = image[at + 7] as u64;
    b0 + 0x100 * b1 + 0x1_0000 * b2 + 0x100_0000 * b3 + 0x1_0000_0000 * b4 + 0x100_0000_0000 * b5
        + 0x1_0000_0000_0000 * b6 + 0x100_0000_0000_0000 * b7
}

/// In a sound image every program is a non-empty range within the image.
pub proof fn lemma_entries_in_bounds(image: Seq<u8>, i: int)
    requires
        image_defect(image) is None,
        image.len() <= usize::MAX,
        0 <= i < declared_count(image),
    ensures
        0 <= boundary(image, i) < boundary(image, i + 1) <= image.len(),
        image_entries(image)[i].start_offset == boundary(image, i),
        image_entries(image)[i].end_offset == boundary(image, i + 1),
        image_entries(image)[i].spec_length() > 0,
{
    let n = declared_count(image);
    assert(boundary(image, i) < boundary(image, i + 1));
    if i + 1 < n {
        assert(boundary(image, i + 1) < boundary(image, n));
    }
    lemma_word_bounds(image.subrange(8 * (i + 1), 8 * (i + 1) + 8));
}

/// In a sound image the programs follow one another in the order of their
/// indices: an earlier program ends where a later one starts, or before.
pub proof fn lemma_entries_ordered(image: Seq<u8>, i: int, j: int)
    requires
        image_defect(image) is None,
        image.len() <= usize::MAX,
        0 <= i < j < declared_count(image),
    ensures
        image_entries(image)[i].end_offset <= image_entries(image)[j].start_offset,
{
    lemma_entries_in_bounds(image, i);
    lemma_entries_in_bounds(image, j);
    if i + 1 < j {
        assert(boundary(image, i + 1) < boundary(image, j));
    }
}

/// A little-endian word of eight bytes is a 64-bit value.
pub proof fn lemma_word_bounds(bytes: Seq<u8>)
    ensures
        0 <= le_word(bytes) <= u64::MAX,
{
}

} // verus!
