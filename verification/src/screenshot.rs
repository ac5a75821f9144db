use vstd::prelude::*;

verus! {

/// Why a captured screenshot is refused.
pub enum ScreenshotError {
    /// The file does not start like a PNG image.
    NotPng,
    /// The image, or the display it shows, has no area.
    InvalidDimensions,
}

impl ScreenshotError {
    pub open spec fn message_spec(&self) -> Seq<char> {
        match self {
            ScreenshotError::NotPng => "Screenshot is not a PNG image."@,
            ScreenshotError::InvalidDimensions => "Screenshot has invalid dimensions."@,
        }
    }

    /// The message shown for the error.
    pub fn message(&self) -> (m: &str)
        ensures
            m@ == self.message_spec(),
    {
        match self {
            ScreenshotError::NotPng => "Screenshot is not a PNG image.",
            ScreenshotError::InvalidDimensions => "Screenshot has invalid dimensions.",
        }
    }
}

/// The eight bytes that open every PNG file.
pub open spec fn png_signature() -> Seq<u8> {
    seq![0x89u8, 0x50u8, 0x4Eu8, 0x47u8, 0x0Du8, 0x0Au8, 0x1Au8, 0x0Au8]
}

/// The type of the chunk that must come first: `IHDR`.
pub open spec fn ihdr_tag() -> Seq<u8> {
    seq![0x49u8, 0x48u8, 0x44u8, 0x52u8]
}

/// Whether the first 24 bytes of a file are a PNG signature followed by an
/// `IHDR` chunk header.
pub open spec fn is_png_header(header: Seq<u8>) -> bool {
    header.subrange(0, 8) == png_signature() && header.subrange(12, 16) == ihdr_tag()
}

/// The big-endian unsigned number in `bytes[at..at + 4]`.
pub open spec fn be_u32_spec(bytes: Seq<u8>, at: int) -> int {
    bytes[at] * 0x1000000 + bytes[at + 1] * 0x10000 + bytes[at + 2] * 0x100 + bytes[at + 3]
}

/// What the 24-byte start of a screenshot file says of the image: its width
/// and height in pixels, stored big-endian in the `IHDR` chunk; a file that
/// is no PNG, and an image without area, are refused.
pub open spec fn png_dimensions_spec(header: Seq<u8>) -> Result<(u32, u32), ScreenshotError> {
    if !is_png_header(header) {
        Err(ScreenshotError::NotPng)
    } else if be_u32_spec(header, 16) == 0 || be_u32_spec(header, 20) == 0 {
        Err(ScreenshotError::InvalidDimensions)
    } else {
        Ok((be_u32_spec(header, 16) as u32, be_u32_spec(header, 20) as u32))
    }
}

/// The four big-endian bytes of `v`.
pub open spec fn be_bytes(v: u32) -> Seq<u8> {
    seq![
        (v / 0x1000000) as u8,
        (v / 0x10000 % 0x100) as u8,
        (v / 0x100 % 0x100) as u8,
        (v % 0x100) as u8,
    ]
}

proof fn lemma_be_bytes(v: u32)
    ensures
        (v / 0x1000000) as u8 * 0x1000000 + (v / 0x10000 % 0x100) as u8 * 0x10000 + (v / 0x100
            % 0x100) as u8 * 0x100 + (v % 0x100) as u8 == v,
{
    assert((v / 0x1000000) as u8 * 0x1000000 + (v / 0x10000 % 0x100) as u8 * 0x10000 + (v
        / 0x100 % 0x100) as u8 * 0x100 + (v % 0x100) as u8 == v) by (bit_vector);
}

/// A PNG header that stores a width and a height, both above zero, is read
/// back as exactly that width and height.
pub proof fn lemma_png_dimensions_read_back(header: Seq<u8>, width: u32, height: u32)
    requires
        header.len() == 24,
        is_png_header(header),
        header.subrange(16, 20) == be_bytes(width),
        header.subrange(20, 24) == be_bytes(height),
        width > 0,
        height > 0,
    ensures
        png_dimensions_spec(header) == Ok::<(u32, u32), ScreenshotError>((width, height)),
{
    assert(header[16] == be_bytes(width)[0] && header[17] == be_bytes(width)[1] && header[18]
        == be_bytes(width)[2] && header[19] == be_bytes(width)[3]);
    assert(header[20] == be_bytes(height)[0] && header[21] == be_bytes(height)[1] && header[22]
        == be_bytes(height)[2] && header[23] == be_bytes(height)[3]);
    lemma_be_bytes(width);
    lemma_be_bytes(height);
    assert(be_u32_spec(header, 16) == width);
    assert(be_u32_spec(header, 20) == height);
}

fn be_u32(header: &[u8; 24], at: usize) -> (v: u32)
    requires
        at + 4 <= 24,
    ensures
        v == be_u32_spec(header@, at as int),
{
    (header[at] as u32) * 0x1000000 + (header[at + 1] as u32) * 0x10000 + (header[at + 2] as u32)
        * 0x100 + (header[at + 3] as u32)
}

fn same_bytes(a: &[u8; 24], from: usize, expected: &[u8]) -> (b: bool)
    requires
        from + expected@.len() <= 24,
    ensures
        b == (a@.subrange(from as int, from + expected@.len()) == expected@),
{
    let n = expected.len();
    let mut i: usize = 0;
    while i < n
        invariant
            n == expected@.len(),
            from + n <= 24,
            i <= n,
            forall|k: int| 0 <= k < i ==> a@[from + k] == expected@[k],
        decreases n - i,
    {
        if a[from + i] != expected[i] {
            assert(a@.subrange(from as int, from + n)[i as int] != expected@[i as int]);
            return false;
        }
        i = i + 1;
    }
    assert(a@.subrange(from as int, from + n) =~= expected@);
    true
}

/// Reads the width and height of a screenshot from the first 24 bytes of its
/// PNG file.
pub fn png_dimensions(header: &[u8; 24]) -> (r: Result<(u32, u32), ScreenshotError>)
    ensures
        r == png_dimensions_spec(header@),
{
    let signature: [u8; 8] = [0x89, 0x50, 0x4E, 0x47, 0x0D, 0x0A, 0x1A, 0x0A];
    let ihdr: [u8; 4] = [0x49, 0x48, 0x44, 0x52];
    assert(signature@ =~= png_signature());
    assert(ihdr@ =~= ihdr_tag());
    if !same_bytes(header, 0, &signature) || !same_bytes(header, 12, &ihdr) {
        return Err(ScreenshotError::NotPng);
    }
    let width = be_u32(header, 16);
    let height = be_u32(header, 20);
    if width == 0 || height == 0 {
        return Err(ScreenshotError::InvalidDimensions);
    }
    Ok((width, height))
}

} // verus!
