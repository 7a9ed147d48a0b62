use page_shell::icon::{load_icon, IconError, IconImage, PIXEL_SIZE};

fn tiny_ico() -> Vec<u8> {
    vec![
        0, 0, 1, 0, 1, 0, 2, 1, 0, 0, 1, 0, 32, 0, 74, 0, 0, 0, 22, 0, 0, 0, 137, 80, 78, 71, 13,
        10, 26, 10, 0, 0, 0, 13, 73, 72, 68, 82, 0, 0, 0, 2, 0, 0, 0, 1, 8, 6, 0, 0, 0, 244, 34,
        127, 138, 0, 0, 0, 17, 73, 68, 65, 84, 120, 156, 99, 248, 207, 192, 240, 159, 161, 225,
        191, 3, 0, 16, 186, 3, 190, 71, 150, 32, 160, 0, 0, 0, 0, 73, 69, 78, 68, 174, 66, 96, 130,
    ]
}

#[test]
fn pixel_size_is_four_bytes() {
    assert_eq!(PIXEL_SIZE, 4);
}

#[test]
fn from_rgba_accepts_a_fitting_buffer() {
    let rgba: Vec<u8> = vec![1, 2, 3, 4, 5, 6, 7, 8, 9, 10, 11, 12, 13, 14, 15, 16, 17, 18, 19, 20, 21, 22, 23, 24];
    let icon = IconImage::from_rgba(rgba.clone(), 3, 2).unwrap();
    assert_eq!(icon.rgba(), &rgba);
    assert_eq!(icon.width(), 3);
    assert_eq!(icon.height(), 2);
    assert_eq!(icon.clone(), icon);
}

#[test]
fn from_rgba_accepts_the_empty_image() {
    let icon = IconImage::from_rgba(Vec::new(), 0, 7).unwrap();
    assert!(icon.rgba().is_empty());
    assert_eq!(icon.width(), 0);
    assert_eq!(icon.height(), 7);
}

#[test]
fn from_rgba_refuses_a_broken_pixel() {
    assert_eq!(
        IconImage::from_rgba(vec![0, 0, 0, 0, 0], 1, 1),
        Err(IconError::ByteCountNotDivisibleBy4 { byte_count: 5 })
    );
    assert_eq!(
        IconImage::from_rgba(vec![0, 0, 0], 0, 0),
        Err(IconError::ByteCountNotDivisibleBy4 { byte_count: 3 })
    );
}

#[test]
fn from_rgba_refuses_other_dimensions() {
    assert_eq!(
        IconImage::from_rgba(vec![0; 8], 1, 1),
        Err(IconError::DimensionsVsPixelCount { width: 1, height: 1, pixel_count: 2 })
    );
    assert_eq!(
        IconImage::from_rgba(vec![0; 8], 3, 1),
        Err(IconError::DimensionsVsPixelCount { width: 3, height: 1, pixel_count: 2 })
    );
}

#[test]
fn from_rgba_does_not_wrap_large_dimensions() {
    assert_eq!(
        IconImage::from_rgba(Vec::new(), 65536, 65536),
        Err(IconError::DimensionsVsPixelCount { width: 65536, height: 65536, pixel_count: 0 })
    );
    assert_eq!(
        IconImage::from_rgba(vec![0; 4], u32::MAX, u32::MAX),
        Err(IconError::DimensionsVsPixelCount { width: u32::MAX, height: u32::MAX, pixel_count: 1 })
    );
}

#[test]
fn load_icon_decodes_an_ico_file() {
    let icon = load_icon(&tiny_ico()).unwrap();
    assert_eq!(icon.width(), 2);
    assert_eq!(icon.height(), 1);
    let expected: Vec<u8> = vec![255, 0, 0, 255, 0, 128, 255, 64];
    assert_eq!(icon.rgba(), &expected);
}

#[test]
fn load_icon_refuses_what_is_no_ico_file() {
    assert_eq!(load_icon(&[]), Err(IconError::Undecodable));
    assert_eq!(load_icon(&[1, 2, 3, 4, 5, 6, 7, 8]), Err(IconError::Undecodable));
    let mut cut = tiny_ico();
    cut.truncate(40);
    assert_eq!(load_icon(&cut), Err(IconError::Undecodable));
}
