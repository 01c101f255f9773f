//! Headers and pixels of an uncompressed BMP image, and their bytes in
//! little-endian order.

use vstd::prelude::*;

verus! {

/// The two bytes of `x`, least significant first.
pub open spec fn le16(x: u16) -> Seq<u8> {
    seq![(x % 256) as u8, (x / 256) as u8]
}

/// The four bytes of `x`, least significant first.
pub open spec fn le32(x: u32) -> Seq<u8> {
    seq![
        (x % 256) as u8,
        ((x / 256) % 256) as u8,
        ((x / 65536) % 256) as u8,
        (x / 16777216) as u8,
    ]
}

/// The bytes of `x`, least significant first.
fn convert_u16(x: u16) -> (r: [u8; 2])
    ensures
        r@ == le16(x),
{
    let r = [(x % 256) as u8, (x / 256) as u8];
    assert(r@ =~= le16(x));
    r
}

/// The bytes of `x`, least significant first.
fn convert_u32(x: u32) -> (r: [u8; 4])
    ensures
        r@ == le32(x),
{
    let r = [(x % 256) as u8, ((x / 256) % 256) as u8, ((x / 65536) % 256) as u8, (x / 16777216) as u8];
    assert(r@ =~= le32(x));
    r
}

/// The 14-byte file header of a BMP file.
#[derive(Debug, Default)]
pub struct FileHeader {
    pub file_type: u16,
    pub size: u32,
    pub reserved1: u16,
    pub reserved2: u16,
    pub start_offset: u32,
}

/// The header's fields as bytes, in field order.
pub open spec fn file_header_bytes(h: FileHeader) -> Seq<u8> {
    le16(h.file_type) + le32(h.size) + le16(h.reserved1) + le16(h.reserved2) + le32(h.start_offset)
}

impl FileHeader {
    /// A Windows bitmap header (`BM`) that counts only itself in the size,
    /// with the pixel data starting after both headers, at byte 54.
    pub fn new() -> (r: FileHeader)
        ensures
            r.file_type == 0x4D42,
            r.size == 14,
            r.reserved1 == 0,
            r.reserved2 == 0,
            r.start_offset == 54,
    {
        FileHeader { file_type: 0x4D42, size: 14, reserved1: 0, reserved2: 0, start_offset: 54 }
    }

    /// The 14 bytes of the header as they stand in the file.
    pub fn to_ne_bytes(&self) -> (r: [u8; 14])
        ensures
            r@ == file_header_bytes(*self),
    {
        let t = convert_u16(self.file_type);
        let s = convert_u32(self.size);
        let a = convert_u16(self.reserved1);
        let b = convert_u16(self.reserved2);
        let o = convert_u32(self.start_offset);
        let r = [t[0], t[1], s[0], s[1], s[2], s[3], a[0], a[1], b[0], b[1], o[0], o[1], o[2], o[3]];
        assert(r@ =~= file_header_bytes(*self));
        r
    }
}

/// The 40-byte information header of a BMP file.
#[derive(Debug, Default)]
pub struct BitmapInformationHeader {
    pub size: u32,
    pub widh: u32,
    pub height: u32,
    pub color_planes: u16,
    pub bits_per_pixel: u16,
    pub compression: u32,
    pub image_data_size: u32,
    pub resolution: u64,
    pub colors: u32,
    pub imp_colors: u32,
}

impl BitmapInformationHeader {
    /// The header of a 100 by 100 true-colour image: one plane, 24 bits per
    /// pixel, no compression, no palette.
    pub fn new() -> (r: BitmapInformationHeader)
        ensures
            r.size == 40,
            r.widh == 100,
            r.height == 100,
            r.color_planes == 1,
            r.bits_per_pixel == 24,
            r.compression == 0,
            r.image_data_size == 240000,
            r.resolution == 40,
            r.colors == 0,
            r.imp_colors == 0,
    {
        BitmapInformationHeader {
            size: 40,
            widh: 100,
            height: 100,
            color_planes: 1,
            bits_per_pixel: 24,
            compression: 0,
            image_data_size: 24 * 10000,
            resolution: 40,
            colors: 0,
            imp_colors: 0,
        }
    }
}

/// One pixel: red, green and blue.
#[derive(Clone)]
pub struct Rgb(pub u8, pub u8, pub u8);

impl Rgb {
    /// The pixel with the given components.
    pub fn new(r: u8, g: u8, b: u8) -> (p: Rgb)
        ensures
            p.0 == r,
            p.1 == g,
            p.2 == b,
    {
        Rgb(r, g, b)
    }

    /// The three components in order.
    pub fn to_ne_bytes(&self) -> (r: [u8; 3])
        ensures
            r@ == seq![self.0, self.1, self.2],
    {
        let r = [self.0, self.1, self.2];
        assert(r@ =~= seq![self.0, self.1, self.2]);
        r
    }
}

} // verus!
