//! The window icon: pixels decoded from an `.ico` file by the `image` crate,
//! checked against their dimensions before they reach the native window.

use vstd::prelude::*;

verus! {

/// The bytes of one pixel: red, green, blue, alpha.
pub const PIXEL_SIZE: usize = 4;

/// Why a buffer is no icon.
#[derive(Clone, Copy, Debug, PartialEq, Eq, Structural)]
pub enum IconError {
    /// The bytes do not decode as an `.ico` image.
    Undecodable,
    /// The buffer's length is no multiple of the pixel size.
    ByteCountNotDivisibleBy4 { byte_count: usize },
    /// The buffer holds another number of pixels than width times height.
    DimensionsVsPixelCount { width: u32, height: u32, pixel_count: usize },
}

/// An icon: rows of RGBA pixels, top row first, with exactly
/// `width * height` of them.
#[derive(Debug, PartialEq, Eq)]
pub struct IconImage {
    rgba: Vec<u8>,
    width: u32,
    height: u32,
}

/// What an `IconImage` is to a contract.
pub struct IconView {
    pub rgba: Seq<u8>,
    pub width: u32,
    pub height: u32,
}

impl IconView {
    /// Whether the buffer holds one pixel for each point of the image.
    pub open spec fn fits(self) -> bool {
        self.rgba.len() == PIXEL_SIZE * (self.width * self.height)
    }
}

impl View for IconImage {
    type V = IconView;

    closed spec fn view(&self) -> IconView {
        IconView { rgba: self.rgba@, width: self.width, height: self.height }
    }
}

/// What a buffer with its dimensions is as an icon.
pub open spec fn checked_icon(rgba: Seq<u8>, width: u32, height: u32) -> Result<
    IconView,
    IconError,
> {
    if rgba.len() % (PIXEL_SIZE as nat) != 0 {
        Err(IconError::ByteCountNotDivisibleBy4 { byte_count: rgba.len() as usize })
    } else if rgba.len() / (PIXEL_SIZE as nat) != width * height {
        Err(
            IconError::DimensionsVsPixelCount {
                width,
                height,
                pixel_count: (rgba.len() / (PIXEL_SIZE as nat)) as usize,
            },
        )
    } else {
        Ok(IconView { rgba, width, height })
    }
}

/// What the result of a check is to a contract.
pub open spec fn icon_outcome(r: Result<IconImage, IconError>) -> Result<IconView, IconError> {
    match r {
        Ok(icon) => Ok(icon@),
        Err(e) => Err(e),
    }
}

impl Clone for IconImage {
    fn clone(&self) -> (r: IconImage)
        ensures
            r@ == self@,
    {
        proof {
            use_type_invariant(self);
        }
        IconImage { rgba: self.rgba.clone(), width: self.width, height: self.height }
    }
}

impl IconImage {
    #[verifier::type_invariant]
    spec fn fitted(&self) -> bool {
        self@.fits()
    }

    /// Makes an icon of a buffer of RGBA pixels, if its length is that of
    /// `width * height` pixels.
    pub fn from_rgba(rgba: Vec<u8>, width: u32, height: u32) -> (r: Result<IconImage, IconError>)
        ensures
            icon_outcome(r) == checked_icon(rgba@, width, height),
            r.is_ok() ==> r.unwrap()@.fits(),
    {
        let byte_count: usize = rgba.len();
        if byte_count % PIXEL_SIZE != 0 {
            return Err(IconError::ByteCountNotDivisibleBy4 { byte_count });
        }
        let pixel_count: usize = byte_count / PIXEL_SIZE;
        assert((width as u64) * (height as u64) <= 0xFFFF_FFFF * 0xFFFF_FFFF) by (nonlinear_arith)
            requires
                width <= 0xFFFF_FFFF,
                height <= 0xFFFF_FFFF,
        ;
        let area: u64 = (width as u64) * (height as u64);
        if pixel_count as u64 != area {
            Err(IconError::DimensionsVsPixelCount { width, height, pixel_count })
        } else {
            assert(byte_count == PIXEL_SIZE * (width * height));
            Ok(IconImage { rgba, width, height })
        }
    }

    /// The pixels, four bytes each.
    pub fn rgba(&self) -> (r: &Vec<u8>)
        ensures
            r@ == self@.rgba,
            r@.len() == PIXEL_SIZE * (self@.width * self@.height),
    {
        proof {
            use_type_invariant(self);
        }
        &self.rgba
    }

    /// The width in pixels.
    pub fn width(&self) -> (r: u32)
        ensures
            r == self@.width,
    {
        self.width
    }

    /// The height in pixels.
    pub fn height(&self) -> (r: u32)
        ensures
            r == self@.height,
    {
        self.height
    }
}

/// The error of the `image` crate, carried from the decoder to the point
/// where it becomes an `IconError`.
#[verifier::external_type_specification]
#[verifier::external_body]
pub struct ExImageError(image::ImageError);

/// The RGBA pixels, the width and the height of what
/// `image::load_from_memory_with_format` decodes from the bytes as an `.ico`
/// image; `None` where it reports an error.
pub uninterp spec fn decoded_ico(bytes: Seq<u8>) -> Option<(Seq<u8>, u32, u32)>;

/// Calls `image::load_from_memory_with_format` with the format `Ico`, the
/// decoder that `image::open` uses for a path that ends in `.ico`, and hands
/// out the image as RGBA bytes with its dimensions. The contract names the
/// outcome `decoded_ico` of the bytes and claims one thing more of it: the
/// buffer of a decoded image holds four bytes for each of its
/// `width * height` pixels, as the crate sizes it.
#[verifier::external_body]
fn decode_ico(bytes: &[u8]) -> (r: Result<(Vec<u8>, u32, u32), image::ImageError>)
    ensures
        match r {
            Ok(decoded) => decoded_ico(bytes@) == Some((decoded.0@, decoded.1, decoded.2))
                && decoded.0@.len() == 4 * (decoded.1 * decoded.2),
            Err(_) => decoded_ico(bytes@).is_none(),
        },
{
    let image = image::load_from_memory_with_format(bytes, image::ImageFormat::Ico)?.into_rgba8();
    let (width, height) = image.dimensions();
    Ok((image.into_raw(), width, height))
}

/// What the bytes of an icon file are as an icon, given what was decoded
/// from them.
pub open spec fn loaded_icon(decoded: Option<(Seq<u8>, u32, u32)>) -> Result<IconView, IconError> {
    match decoded {
        None => Err(IconError::Undecodable),
        Some((rgba, width, height)) => checked_icon(rgba, width, height),
    }
}

/// Decodes the bytes of an `.ico` file into the window's icon. What decodes
/// is an icon: the only error is `Undecodable`.
pub fn load_icon(bytes: &[u8]) -> (r: Result<IconImage, IconError>)
    ensures
        icon_outcome(r) == loaded_icon(decoded_ico(bytes@)),
        decoded_ico(bytes@).is_some() ==> r.is_ok(),
        decoded_ico(bytes@).is_none() ==> r == Err::<IconImage, IconError>(IconError::Undecodable),
{
    match decode_ico(bytes) {
        Ok((rgba, width, height)) => IconImage::from_rgba(rgba, width, height),
        Err(_) => Err(IconError::Undecodable),
    }
}

} // verus!
