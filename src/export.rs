//! The last step of a raster export: writing the pixel density into the
//! encoded bytes, as a JFIF density for JPEG and a `pHYs` chunk for PNG.
use vstd::prelude::*;
use crate::strings::str_eq;

verus! {

/// What `canvas.saveAs` can produce.
#[derive(Clone, Copy, Debug, PartialEq, Eq, Structural)]
pub enum ExportFormat {
    Pdf,
    Png,
    Jpeg,
}

/// The raster encodings whose bytes carry a density.
#[derive(Clone, Copy, Debug, PartialEq, Eq, Structural)]
pub enum ImageFormat {
    Png,
    Jpeg,
}

/// Why the density could not be written.
#[derive(Clone, Copy, Debug, PartialEq, Eq, Structural)]
pub enum DpiError {
    /// The encoded bytes end before the place where the density goes.
    Truncated,
    /// The density does not fit the field that holds it.
    DensityTooLarge,
}

pub open spec fn export_format_named(s: Seq<char>) -> Option<ExportFormat> {
    if s == "pdf"@ {
        Some(ExportFormat::Pdf)
    } else if s == "png"@ {
        Some(ExportFormat::Png)
    } else if s == "jpg"@ || s == "jpeg"@ {
        Some(ExportFormat::Jpeg)
    } else {
        None
    }
}

/// Parses an export format name; the match is exact.
pub fn to_export_format(name: &str) -> (r: Option<ExportFormat>)
    ensures
        r == export_format_named(name@),
{
    if str_eq(name, "pdf") {
        Some(ExportFormat::Pdf)
    } else if str_eq(name, "png") {
        Some(ExportFormat::Png)
    } else if str_eq(name, "jpg") || str_eq(name, "jpeg") {
        Some(ExportFormat::Jpeg)
    } else {
        None
    }
}

/// The raster encoding behind an export format, if it has one.
pub fn image_format(format: ExportFormat) -> (r: Option<ImageFormat>)
    ensures
        r == match format {
            ExportFormat::Pdf => None,
            ExportFormat::Png => Some(ImageFormat::Png),
            ExportFormat::Jpeg => Some(ImageFormat::Jpeg),
        },
{
    match format {
        ExportFormat::Pdf => None,
        ExportFormat::Png => Some(ImageFormat::Png),
        ExportFormat::Jpeg => Some(ImageFormat::Jpeg),
    }
}

/// Offset of the JFIF density fields (units, x density, y density).
pub const JFIF_DENSITY_AT: usize = 13;

/// Offset at which the `pHYs` chunk goes: right after the PNG signature
/// and the `IHDR` chunk.
pub const PHYS_CHUNK_AT: usize = 33;

/// The density, given in thousandths, at which nothing is written.
pub const UNIT_DENSITY: u32 = 1000;

/// Dots per inch for a density given in thousandths: round(72 × density).
pub open spec fn jpeg_dpi(density_milli: nat) -> nat {
    (72 * density_milli + 500) / 1000
}

/// Pixels per metre for a density given in thousandths:
/// round(72 × density × 39.3701).
pub open spec fn png_ppm(density_milli: nat) -> nat {
    (density_milli * 28346472 + 5000000) / 10000000
}

pub open spec fn be16(v: nat) -> Seq<u8> {
    seq![(v / 256 % 256) as u8, (v % 256) as u8]
}

pub open spec fn be32(v: nat) -> Seq<u8> {
    seq![
        (v / 0x1000000 % 256) as u8,
        (v / 0x10000 % 256) as u8,
        (v / 0x100 % 256) as u8,
        (v % 256) as u8,
    ]
}

/// The chunk type `pHYs` as bytes.
pub open spec fn phys_tag() -> Seq<u8> {
    seq![0x70u8, 0x48u8, 0x59u8, 0x73u8]
}

/// The CRC-32 (ISO-HDLC) of the given bytes.
pub uninterp spec fn crc32_of(bytes: Seq<u8>) -> u32;

/// Chunk type and data of a `pHYs` chunk: the same density on both axes,
/// in pixels per metre.
pub open spec fn phys_body(ppm: nat) -> Seq<u8> {
    phys_tag() + be32(ppm) + be32(ppm) + seq![1u8]
}

/// A whole `pHYs` chunk: length, type and data, checksum.
pub open spec fn phys_chunk(ppm: nat) -> Seq<u8> {
    be32(9) + phys_body(ppm) + be32(crc32_of(phys_body(ppm)) as nat)
}

/// JPEG bytes with the JFIF density set to `dpi` dots per inch.
pub open spec fn jfif_patched(bytes: Seq<u8>, dpi: nat) -> Seq<u8> {
    bytes.subrange(0, 13) + seq![1u8] + be16(dpi) + be16(dpi) + bytes.subrange(18, bytes.len() as int)
}

/// PNG bytes with a `pHYs` chunk of `ppm` pixels per metre put in.
pub open spec fn phys_patched(bytes: Seq<u8>, ppm: nat) -> Seq<u8> {
    bytes.subrange(0, 33) + phys_chunk(ppm) + bytes.subrange(33, bytes.len() as int)
}

/// What writing a density does to encoded bytes.
pub open spec fn dpi_outcome(bytes: Seq<u8>, format: ImageFormat, density_milli: nat) -> Result<
    Seq<u8>,
    DpiError,
> {
    if density_milli == 1000 {
        Ok(bytes)
    } else {
        match format {
            ImageFormat::Jpeg => if bytes.len() < 18 {
                Err(DpiError::Truncated)
            } else if jpeg_dpi(density_milli) > 0xffff {
                Err(DpiError::DensityTooLarge)
            } else {
                Ok(jfif_patched(bytes, jpeg_dpi(density_milli)))
            },
            ImageFormat::Png => if bytes.len() < 33 {
                Err(DpiError::Truncated)
            } else if png_ppm(density_milli) > 0xffff_ffff {
                Err(DpiError::DensityTooLarge)
            } else {
                Ok(phys_patched(bytes, png_ppm(density_milli)))
            },
        }
    }
}

/// Relies on `crc::Crc::<u32>::checksum` with the `CRC_32_ISO_HDLC`
/// algorithm: the checksum depends on the bytes alone.
#[verifier::external_body]
fn crc32_iso_hdlc(bytes: &Vec<u8>) -> (r: u32)
    ensures
        r == crc32_of(bytes@),
{
    crc::Crc::<u32>::new(&crc::CRC_32_ISO_HDLC).checksum(bytes.as_slice())
}

fn push_range(out: &mut Vec<u8>, src: &Vec<u8>, from: usize, to: usize)
    requires
        from <= to <= src@.len(),
    ensures
        final(out)@ == old(out)@ + src@.subrange(from as int, to as int),
{
    let mut i = from;
    while i < to
        invariant
            from <= i <= to <= src@.len(),
            out@ == old(out)@ + src@.subrange(from as int, i as int),
        decreases to - i,
    {
        out.push(src[i]);
        assert(src@.subrange(from as int, i + 1) == src@.subrange(from as int, i as int).push(
            src@[i as int],
        ));
        i = i + 1;
    }
}

fn push_be16(out: &mut Vec<u8>, v: u16)
    ensures
        final(out)@ == old(out)@ + be16(v as nat),
{
    out.push(((v / 256) % 256) as u8);
    out.push((v % 256) as u8);
    assert(final(out)@ =~= old(out)@ + be16(v as nat));
}

fn push_be32(out: &mut Vec<u8>, v: u32)
    ensures
        final(out)@ == old(out)@ + be32(v as nat),
{
    out.push(((v / 0x1000000) % 256) as u8);
    out.push(((v / 0x10000) % 256) as u8);
    out.push(((v / 0x100) % 256) as u8);
    out.push((v % 256) as u8);
    assert(final(out)@ =~= old(out)@ + be32(v as nat));
}

/// Writes the pixel density of an export into its encoded bytes. The
/// density is given in thousandths (2000 for a 2× export); at exactly 1×
/// the bytes pass through unchanged.
pub fn with_dpi(data: Vec<u8>, format: ImageFormat, density_milli: u32) -> (r: Result<
    Vec<u8>,
    DpiError,
>)
    ensures
        dpi_outcome(data@, format, density_milli as nat) == match r {
            Ok(v) => Ok(v@),
            Err(e) => Err::<Seq<u8>, DpiError>(e),
        },
{
    if density_milli == UNIT_DENSITY {
        return Ok(data);
    }
    let len = data.len();
    match format {
        ImageFormat::Jpeg => {
            if len < 18 {
                return Err(DpiError::Truncated);
            }
            let dpi: u64 = (72 * (density_milli as u64) + 500) / 1000;
            if dpi > 0xffff {
                return Err(DpiError::DensityTooLarge);
            }
            let mut out: Vec<u8> = Vec::new();
            push_range(&mut out, &data, 0, JFIF_DENSITY_AT);
            out.push(1u8);
            push_be16(&mut out, dpi as u16);
            push_be16(&mut out, dpi as u16);
            push_range(&mut out, &data, 18, len);
            assert(out@ =~= jfif_patched(data@, dpi as nat));
            Ok(out)
        },
        ImageFormat::Png => {
            if len < 33 {
                return Err(DpiError::Truncated);
            }
            let ppm: u64 = ((density_milli as u64) * 28346472 + 5000000) / 10000000;
            if ppm > 0xffff_ffff {
                return Err(DpiError::DensityTooLarge);
            }
            let ppm = ppm as u32;
            let mut body: Vec<u8> = Vec::new();
            body.push(0x70u8);
            body.push(0x48u8);
            body.push(0x59u8);
            body.push(0x73u8);
            push_be32(&mut body, ppm);
            push_be32(&mut body, ppm);
            body.push(1u8);
            assert(body@ =~= phys_body(ppm as nat));
            let checksum = crc32_iso_hdlc(&body);
            let mut out: Vec<u8> = Vec::new();
            push_range(&mut out, &data, 0, PHYS_CHUNK_AT);
            push_be32(&mut out, 9);
            push_range(&mut out, &body, 0, body.len());
            push_be32(&mut out, checksum);
            push_range(&mut out, &data, PHYS_CHUNK_AT, len);
            assert(body@.subrange(0, body@.len() as int) =~= body@);
            assert(out@ =~= phys_patched(data@, ppm as nat));
            Ok(out)
        },
    }
}

/// The big-endian 16-bit number at `at`.
pub open spec fn read_be16(bytes: Seq<u8>, at: int) -> nat {
    (bytes[at] as nat) * 256 + (bytes[at + 1] as nat)
}

/// The big-endian 32-bit number at `at`.
pub open spec fn read_be32(bytes: Seq<u8>, at: int) -> nat {
    (bytes[at] as nat) * 0x1000000 + (bytes[at + 1] as nat) * 0x10000 + (bytes[at + 2] as nat)
        * 0x100 + (bytes[at + 3] as nat)
}

/// The JFIF density fields as a reader finds them: the unit, then the x
/// and y densities.
pub open spec fn jfif_density_of(bytes: Seq<u8>) -> (u8, nat, nat) {
    (bytes[13], read_be16(bytes, 14), read_be16(bytes, 16))
}

/// The density of the `pHYs` chunk found at the chunk offset, in pixels per
/// metre, when the chunk is whole: length 9, its type, equal densities on
/// both axes, the metre unit, and a checksum that matches type and data.
pub open spec fn phys_density_of(bytes: Seq<u8>) -> Option<nat> {
    if bytes.len() >= 54 && read_be32(bytes, 33) == 9 && bytes.subrange(37, 41) == phys_tag()
        && read_be32(bytes, 41) == read_be32(bytes, 45) && bytes[49] == 1 && read_be32(bytes, 50)
        == crc32_of(bytes.subrange(37, 50)) as nat {
        Some(read_be32(bytes, 41))
    } else {
        None
    }
}

proof fn lemma_be16_round_trip(v: nat)
    requires
        v <= 0xffff,
    ensures
        read_be16(be16(v), 0) == v,
{
    let b = be16(v);
    assert(b[0] as nat == v / 256 % 256);
    assert(b[1] as nat == v % 256);
    assert((v / 256 % 256) * 256 + v % 256 == v) by (nonlinear_arith)
        requires
            v <= 0xffff,
    ;
}

proof fn lemma_be32_round_trip(v: nat)
    requires
        v <= 0xffff_ffff,
    ensures
        read_be32(be32(v), 0) == v,
{
    let b = be32(v);
    assert(b[0] as nat == v / 0x1000000 % 256);
    assert(b[1] as nat == v / 0x10000 % 256);
    assert(b[2] as nat == v / 0x100 % 256);
    assert(b[3] as nat == v % 256);
    assert((v / 0x1000000 % 256) * 0x1000000 + (v / 0x10000 % 256) * 0x10000 + (v / 0x100 % 256)
        * 0x100 + v % 256 == v) by (nonlinear_arith)
        requires
            v <= 0xffff_ffff,
    ;
}

/// A JPEG export at a density other than 1× reads back, from the JFIF
/// fields, as round(72 × density) dots per inch on both axes, with the unit
/// set to inches; the bytes keep their length and change nowhere else.
pub proof fn lemma_jfif_density_round_trip(bytes: Seq<u8>, density_milli: nat)
    requires
        bytes.len() >= 18,
        density_milli != 1000,
        jpeg_dpi(density_milli) <= 0xffff,
    ensures
        dpi_outcome(bytes, ImageFormat::Jpeg, density_milli) matches Ok(out) && out.len()
            == bytes.len() && jfif_density_of(out) == (1u8, jpeg_dpi(density_milli), jpeg_dpi(
            density_milli,
        )) && (forall|i: int|
            0 <= i < bytes.len() && !(13 <= i < 18) ==> #[trigger] out[i] == bytes[i]),
{
    let dpi = jpeg_dpi(density_milli);
    let out = jfif_patched(bytes, dpi);
    lemma_be16_round_trip(dpi);
    let h = be16(dpi);
    assert(out[14] == h[0] && out[15] == h[1] && out[16] == h[0] && out[17] == h[1]);
    assert(read_be16(out, 14) == read_be16(h, 0));
    assert(read_be16(out, 16) == read_be16(h, 0));
}

/// A PNG export at a density other than 1× holds, right after its header
/// chunk, a whole `pHYs` chunk that reads back as
/// round(72 × density × 39.3701) pixels per metre with a checksum that
/// matches; the bytes before and after it are those of the input.
pub proof fn lemma_phys_density_round_trip(bytes: Seq<u8>, density_milli: nat)
    requires
        bytes.len() >= 33,
        density_milli != 1000,
        png_ppm(density_milli) <= 0xffff_ffff,
    ensures
        dpi_outcome(bytes, ImageFormat::Png, density_milli) matches Ok(out) && phys_density_of(out)
            == Some(png_ppm(density_milli)) && out.subrange(0, 33) == bytes.subrange(0, 33)
            && out.subrange(54, out.len() as int) == bytes.subrange(33, bytes.len() as int),
{
    let ppm = png_ppm(density_milli);
    let out = phys_patched(bytes, ppm);
    let body = phys_body(ppm);
    let c = crc32_of(body) as nat;
    lemma_be32_round_trip(9);
    lemma_be32_round_trip(ppm);
    lemma_be32_round_trip(c);
    assert(out.len() == bytes.len() + 21);
    assert(out.subrange(33, 37) =~= be32(9));
    assert(out.subrange(37, 50) =~= body);
    assert(out.subrange(37, 41) =~= phys_tag());
    assert(out.subrange(41, 45) =~= be32(ppm));
    assert(out.subrange(45, 49) =~= be32(ppm));
    assert(out.subrange(50, 54) =~= be32(c));
    assert(read_be32(out, 33) == read_be32(out.subrange(33, 37), 0));
    assert(read_be32(out, 41) == read_be32(out.subrange(41, 45), 0));
    assert(read_be32(out, 45) == read_be32(out.subrange(45, 49), 0));
    assert(read_be32(out, 50) == read_be32(out.subrange(50, 54), 0));
    assert(out[49] == 1);
    assert(out.subrange(0, 33) =~= bytes.subrange(0, 33));
    assert(out.subrange(54, out.len() as int) =~= bytes.subrange(33, bytes.len() as int));
}

} // verus!
