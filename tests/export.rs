use canvas_wasm::export::{
    image_format, to_export_format, with_dpi, DpiError, ExportFormat, ImageFormat,
};

fn sample(len: usize) -> Vec<u8> {
    (0..len).map(|i| (i * 7 % 251) as u8).collect()
}

#[test]
fn export_format_names() {
    assert_eq!(to_export_format("pdf"), Some(ExportFormat::Pdf));
    assert_eq!(to_export_format("png"), Some(ExportFormat::Png));
    assert_eq!(to_export_format("jpg"), Some(ExportFormat::Jpeg));
    assert_eq!(to_export_format("jpeg"), Some(ExportFormat::Jpeg));
    assert_eq!(to_export_format("PNG"), None);
    assert_eq!(to_export_format("gif"), None);
    assert_eq!(image_format(ExportFormat::Pdf), None);
    assert_eq!(image_format(ExportFormat::Jpeg), Some(ImageFormat::Jpeg));
}

#[test]
fn jpeg_density_two_reads_144_dpi() {
    let data = sample(40);
    let out = with_dpi(data.clone(), ImageFormat::Jpeg, 2000).unwrap();
    assert_eq!(out.len(), data.len());
    assert_eq!(&out[13..18], &[1, 0, 144, 0, 144]);
    assert_eq!(&out[..13], &data[..13]);
    assert_eq!(&out[18..], &data[18..]);
    let x = u16::from_be_bytes([out[14], out[15]]);
    let y = u16::from_be_bytes([out[16], out[17]]);
    assert_eq!((x, y), (144, 144));
}

#[test]
fn jpeg_density_rounds() {
    // 72 × 1.5 = 108; 72 × 2.5 = 180; 72 × 0.333 = 23.976 → 24
    let out = with_dpi(sample(20), ImageFormat::Jpeg, 1500).unwrap();
    assert_eq!(&out[13..18], &[1, 0, 108, 0, 108]);
    let out = with_dpi(sample(20), ImageFormat::Jpeg, 333).unwrap();
    assert_eq!(&out[13..18], &[1, 0, 24, 0, 24]);
    let out = with_dpi(sample(20), ImageFormat::Jpeg, 10000).unwrap();
    assert_eq!(&out[13..18], &[1, 2, 208, 2, 208]);
}

#[test]
fn png_density_two_writes_phys_chunk() {
    let data = sample(60);
    let out = with_dpi(data.clone(), ImageFormat::Png, 2000).unwrap();
    assert_eq!(out.len(), data.len() + 21);
    assert_eq!(&out[..33], &data[..33]);
    assert_eq!(&out[54..], &data[33..]);
    assert_eq!(&out[33..37], &9u32.to_be_bytes());
    assert_eq!(&out[37..41], b"pHYs");
    let ppm = (72.0f64 * 2.0 * 39.3701).round() as u32;
    assert_eq!(ppm, 5669);
    assert_eq!(&out[41..45], &ppm.to_be_bytes());
    assert_eq!(&out[45..49], &ppm.to_be_bytes());
    assert_eq!(out[49], 1);
    let crc = crc::Crc::<u32>::new(&crc::CRC_32_ISO_HDLC).checksum(&out[37..50]);
    assert_eq!(&out[50..54], &crc.to_be_bytes());
}

#[test]
fn png_checksum_matches_reference_value() {
    // The pHYs chunk of a 72 dpi × 2 image, checksum computed independently.
    let out = with_dpi(sample(33), ImageFormat::Png, 2000).unwrap();
    let body = [b'p', b'H', b'Y', b's', 0, 0, 0x16, 0x25, 0, 0, 0x16, 0x25, 1];
    assert_eq!(&out[37..50], &body);
    let crc = crc::Crc::<u32>::new(&crc::CRC_32_ISO_HDLC).checksum(&body);
    assert_ne!(crc, 0);
    assert_eq!(u32::from_be_bytes([out[50], out[51], out[52], out[53]]), crc);
}

#[test]
fn unit_density_passes_through() {
    let data = sample(10);
    assert_eq!(with_dpi(data.clone(), ImageFormat::Jpeg, 1000), Ok(data.clone()));
    assert_eq!(with_dpi(data.clone(), ImageFormat::Png, 1000), Ok(data));
}

#[test]
fn dpi_errors() {
    assert_eq!(with_dpi(sample(17), ImageFormat::Jpeg, 2000), Err(DpiError::Truncated));
    assert_eq!(with_dpi(sample(32), ImageFormat::Png, 2000), Err(DpiError::Truncated));
    assert_eq!(with_dpi(sample(20), ImageFormat::Jpeg, 1_000_000), Err(DpiError::DensityTooLarge));
    assert_eq!(
        with_dpi(sample(40), ImageFormat::Png, 2_000_000_000),
        Err(DpiError::DensityTooLarge)
    );
    assert!(with_dpi(sample(40), ImageFormat::Png, 1_000_000).is_ok());
}
