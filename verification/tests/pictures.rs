use puregym_qr::api::{generate_qr, render_symbol, APIError, RenderError};
use puregym_qr::qr::{rasterize, Raster, Symbol, DARK, LIGHT, MAX_WIDTH, MODULE_SIZE, QUIET_ZONE};

const PNG_SIGNATURE: [u8; 8] = [0x89, b'P', b'N', b'G', 0x0d, 0x0a, 0x1a, 0x0a];

fn pixels_of(png: &[u8]) -> Raster {
    let picture = image::load_from_memory(png).unwrap();
    assert_eq!(picture.color(), image::ColorType::L8);
    let grey = picture.to_luma8();
    Raster { width: grey.width(), height: grey.height(), pixels: grey.into_raw() }
}

fn read_back(png: &[u8]) -> Vec<String> {
    let raster = pixels_of(png);
    let width = raster.width as usize;
    let mut prepared = rqrr::PreparedImage::prepare_from_greyscale(
        width,
        raster.height as usize,
        |x, y| raster.pixels[y * width + x],
    );
    let mut found = Vec::new();
    for grid in prepared.detect_grids() {
        found.push(grid.decode().unwrap().1);
    }
    found
}

#[test]
fn picture_is_a_png_file() {
    let png = generate_qr("exerp:checkin:123-456-789").unwrap();
    assert_eq!(&png[..8], &PNG_SIGNATURE);
}

#[test]
fn picture_of_a_short_payload_is_the_smallest_symbol() {
    let raster = pixels_of(&generate_qr("01234567").unwrap());
    assert_eq!(raster.width, 232);
    assert_eq!(raster.height, 232);
    assert_eq!(raster.pixels.len(), 232 * 232);
    assert!(raster.pixels.iter().all(|p| *p == DARK || *p == LIGHT));
    // the quiet zone is light, the corner of the finder pattern is dark
    assert_eq!(raster.pixels[0], LIGHT);
    assert_eq!(raster.pixels[31 * 232 + 31], LIGHT);
    assert_eq!(raster.pixels[32 * 232 + 32], DARK);
    assert_eq!(raster.pixels[39 * 232 + 39], DARK);
    assert_eq!(raster.pixels[40 * 232 + 40], LIGHT);
}

#[test]
fn same_payload_gives_the_same_bytes() {
    let first = generate_qr("exerp:checkin:123-456-789").unwrap();
    let second = generate_qr("exerp:checkin:123-456-789").unwrap();
    assert_eq!(first, second);
    let other = generate_qr("exerp:checkin:123-456-780").unwrap();
    assert_ne!(first, other);
}

#[test]
fn picture_matches_the_drawing_of_the_encoder() {
    for payload in ["", "01234567", "exerp:checkin:123-456-789", "Grüße, 世界", &"x".repeat(300)] {
        let ours = pixels_of(&generate_qr(payload).unwrap());
        let theirs = qrcode::QrCode::new(payload).unwrap().render::<image::Luma<u8>>().build();
        assert_eq!(ours.width, theirs.width(), "{payload}");
        assert_eq!(ours.height, theirs.height(), "{payload}");
        assert_eq!(ours.pixels, theirs.into_raw(), "{payload}");
    }
}

#[test]
fn picture_matches_the_file_of_the_encoder() {
    let payload = "exerp:checkin:123-456-789";
    let theirs = qrcode::QrCode::new(payload).unwrap().render::<image::Luma<u8>>().build();
    let mut bytes = vec![];
    theirs
        .write_to(&mut std::io::Cursor::new(&mut bytes), image::ImageOutputFormat::Png)
        .unwrap();
    assert_eq!(generate_qr(payload).unwrap(), bytes);
}

#[test]
fn empty_payload_reads_back() {
    assert_eq!(read_back(&generate_qr("").unwrap()), vec![String::new()]);
}

#[test]
fn fifty_characters_read_back() {
    let payload = "ABCDEFGHIJKLMNOPQRSTUVWXYZabcdefghijklmnopqrstuvwx";
    assert_eq!(payload.len(), 50);
    assert_eq!(read_back(&generate_qr(payload).unwrap()), vec![payload.to_string()]);
}

#[test]
fn largest_payload_reads_back() {
    let payload = "a".repeat(2331);
    let png = generate_qr(&payload).unwrap();
    let raster = pixels_of(&png);
    assert_eq!(raster.width as usize, (MAX_WIDTH + 2 * QUIET_ZONE) * MODULE_SIZE);
    assert_eq!(read_back(&png), vec![payload]);
}

#[test]
fn payload_beyond_capacity_is_an_encoding_error() {
    assert_eq!(
        generate_qr(&"a".repeat(2332)),
        Err(APIError::QRProcessingError(RenderError::EncodingError))
    );
    assert_eq!(
        generate_qr(&"a".repeat(10_000)),
        Err(APIError::QRProcessingError(RenderError::EncodingError))
    );
}

#[test]
fn digits_fit_further_than_letters() {
    assert!(generate_qr(&"7".repeat(5596)).is_ok());
    assert_eq!(
        generate_qr(&"7".repeat(5597)),
        Err(APIError::QRProcessingError(RenderError::EncodingError))
    );
}

#[test]
fn symbol_must_be_a_square_of_its_width() {
    assert!(Symbol::new(0, vec![]).is_some());
    assert!(Symbol::new(2, vec![true, false, false, true]).is_some());
    assert_eq!(Symbol::new(2, vec![true, false, false]), None);
    assert_eq!(Symbol::new(2, vec![true; 5]), None);
    assert!(Symbol::new(MAX_WIDTH, vec![false; MAX_WIDTH * MAX_WIDTH]).is_some());
    assert_eq!(Symbol::new(MAX_WIDTH + 1, vec![false; (MAX_WIDTH + 1) * (MAX_WIDTH + 1)]), None);
    assert_eq!(Symbol::new(usize::MAX, vec![]), None);
}

#[test]
fn raster_of_a_small_symbol() {
    let symbol = Symbol::new(2, vec![true, false, false, true]).unwrap();
    let raster = rasterize(&symbol);
    assert_eq!(raster.width, 80);
    assert_eq!(raster.height, 80);
    assert_eq!(raster.pixels.len(), 6400);
    for y in 0..80usize {
        for x in 0..80usize {
            let dark = (32..40).contains(&x) && (32..40).contains(&y)
                || (40..48).contains(&x) && (40..48).contains(&y);
            let expected = if dark { DARK } else { LIGHT };
            assert_eq!(raster.pixels[y * 80 + x], expected, "{x},{y}");
            assert_eq!(symbol.shade(x, y), expected, "{x},{y}");
        }
    }
}

#[test]
fn raster_of_the_empty_symbol_is_its_quiet_zone() {
    let raster = rasterize(&Symbol::new(0, vec![]).unwrap());
    assert_eq!(raster.width, 64);
    assert_eq!(raster.height, 64);
    assert_eq!(raster.pixels, vec![LIGHT; 64 * 64]);
}

#[test]
fn shade_is_light_far_outside_the_picture() {
    let symbol = Symbol::new(1, vec![true]).unwrap();
    assert_eq!(symbol.shade(32, 32), DARK);
    assert_eq!(symbol.shade(usize::MAX, 32), LIGHT);
    assert_eq!(symbol.shade(32, usize::MAX), LIGHT);
}

#[test]
fn render_symbol_writes_the_raster() {
    let modules = vec![true, false, false, true];
    let png = render_symbol(2, modules.clone()).unwrap();
    assert_eq!(&png[..8], &PNG_SIGNATURE);
    assert_eq!(pixels_of(&png), rasterize(&Symbol::new(2, modules).unwrap()));
}

#[test]
fn render_symbol_refuses_what_is_no_square() {
    assert_eq!(
        render_symbol(3, vec![true; 8]),
        Err(APIError::QRProcessingError(RenderError::EncodingError))
    );
    assert_eq!(
        render_symbol(MAX_WIDTH + 1, vec![]),
        Err(APIError::QRProcessingError(RenderError::EncodingError))
    );
}
