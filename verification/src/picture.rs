//! The image: a grid of RGB pixels. The file is read and decoded by the
//! driver; what came of it is judged here.

use crate::error::{PipelineError, PipelineErrorView};
use vstd::prelude::*;
use vstd::string::*;

verus! {

/// An image of `width` by `height` pixels, each three bytes: red, green and
/// blue, row by row.
#[derive(Debug)]
pub struct Image {
    width: u32,
    height: u32,
    pixels: Vec<u8>,
}

/// The mathematical content of an [`Image`].
pub struct ImageView {
    pub width: nat,
    pub height: nat,
    pub pixels: Seq<u8>,
}

/// The number of bytes that an RGB image of the given size holds.
pub open spec fn rgb_len(width: nat, height: nat) -> nat {
    3 * width * height
}

impl View for Image {
    type V = ImageView;

    closed spec fn view(&self) -> ImageView {
        ImageView {
            width: self.width as nat,
            height: self.height as nat,
            pixels: self.pixels@,
        }
    }
}

impl ImageView {
    /// Whether the pixels fill the image exactly.
    pub open spec fn well_formed(self) -> bool {
        &&& self.width <= u32::MAX
        &&& self.height <= u32::MAX
        &&& self.pixels.len() == rgb_len(self.width, self.height)
    }
}

impl Image {
    #[verifier::type_invariant]
    spec fn filled(self) -> bool {
        self@.well_formed()
    }

    /// An image from its size and its pixels, or `None` where the pixels do
    /// not fill an image of that size exactly.
    pub fn new(width: u32, height: u32, pixels: Vec<u8>) -> (made: Option<Image>)
        ensures
            made is Some <==> pixels@.len() == rgb_len(width as nat, height as nat),
            made matches Some(image) ==> image@ == (ImageView {
                width: width as nat,
                height: height as nat,
                pixels: pixels@,
            }),
    {
        assert(width * height <= 0xffff_ffff * 0xffff_ffff) by (nonlinear_arith)
            requires
                0 <= width <= 0xffff_ffff,
                0 <= height <= 0xffff_ffff,
        ;
        let area: u128 = (width as u128) * (height as u128);
        let wanted: u128 = 3u128 * area;
        assert(wanted == rgb_len(width as nat, height as nat)) by (nonlinear_arith)
            requires
                wanted == 3 * (width * height),
        ;
        if pixels.len() as u128 == wanted {
            Some(Image { width, height, pixels })
        } else {
            None
        }
    }

    /// The number of pixels in a row.
    pub fn width(&self) -> (width: u32)
        ensures
            width == self@.width,
    {
        self.width
    }

    /// The number of rows.
    pub fn height(&self) -> (height: u32)
        ensures
            height == self@.height,
    {
        self.height
    }

    /// The pixels: three bytes each, row by row.
    pub fn pixels(&self) -> (pixels: &Vec<u8>)
        ensures
            pixels@ == self@.pixels,
            self@.well_formed(),
    {
        proof {
            use_type_invariant(self);
        }
        &self.pixels
    }
}

/// What a decoder hands out: the size of the image and its pixels.
#[derive(Debug)]
pub struct Decoded {
    /// The number of pixels in a row.
    pub width: u32,
    /// The number of rows.
    pub height: u32,
    /// The pixels: three bytes each, row by row.
    pub pixels: Vec<u8>,
}

/// What came of reading and decoding an image file: `None` where the file
/// could not be read, else what the decoder handed out or its reason for
/// refusing the file.
pub type ImageRead = Option<Result<Decoded, String>>;

/// Why pixels that do not fill their image are refused.
pub open spec fn unfilled() -> Seq<char> {
    "decoded pixels do not fill the image"@
}

/// What an image file at `path` that was read and decoded, or was not,
/// gives: the image that the decoder handed out, or the error.
pub open spec fn image_outcome(path: Seq<char>, read: ImageRead) -> Result<
    ImageView,
    PipelineErrorView,
> {
    match read {
        None => Err(PipelineErrorView::ImageNotFound { path }),
        Some(Err(detail)) => Err(PipelineErrorView::ImageDecode { path, detail: detail@ }),
        Some(Ok(decoded)) => if decoded.pixels@.len() == rgb_len(
            decoded.width as nat,
            decoded.height as nat,
        ) {
            Ok(
                ImageView {
                    width: decoded.width as nat,
                    height: decoded.height as nat,
                    pixels: decoded.pixels@,
                },
            )
        } else {
            Err(PipelineErrorView::ImageDecode { path, detail: unfilled() })
        },
    }
}

/// The image that is loaded, by its outcome: its view, or the view of the
/// error.
pub open spec fn loaded_view(loaded: Result<Image, PipelineError>) -> Result<
    ImageView,
    PipelineErrorView,
> {
    match loaded {
        Ok(image) => Ok(image@),
        Err(error) => Err(error@),
    }
}

/// Loads the image from what came of reading and decoding the file at
/// `path`.
///
/// A file that could not be read is `ImageNotFound`. A file that the decoder
/// refused is `ImageDecode` with the decoder's reason. Any other gives the
/// image that the decoder handed out, or `ImageDecode` where its pixels do
/// not fill an image of its size.
pub fn load_image(path: &str, read: ImageRead) -> (loaded: Result<Image, PipelineError>)
    ensures
        loaded_view(loaded) == image_outcome(path@, read),
        loaded matches Ok(image) ==> image@.well_formed(),
{
    match read {
        None => Err(PipelineError::ImageNotFound { path: String::from_str(path) }),
        Some(Err(detail)) => Err(
            PipelineError::ImageDecode { path: String::from_str(path), detail },
        ),
        Some(Ok(decoded)) => image_from_parts(path, decoded.width, decoded.height, decoded.pixels),
    }
}

/// The image that a decoder's output stands for: `ImageDecode` where its
/// pixels do not fill an image of its size.
pub fn image_from_parts(path: &str, width: u32, height: u32, pixels: Vec<u8>) -> (loaded: Result<
    Image,
    PipelineError,
>)
    ensures
        match loaded {
            Ok(image) => pixels@.len() == rgb_len(width as nat, height as nat) && image@ == (
            ImageView { width: width as nat, height: height as nat, pixels: pixels@ }),
            Err(error) => pixels@.len() != rgb_len(width as nat, height as nat) && error@
                == (PipelineErrorView::ImageDecode {
                path: path@,
                detail: unfilled(),
            }),
        },
        loaded matches Ok(image) ==> image@.well_formed(),
{
    match Image::new(width, height, pixels) {
        Some(image) => Ok(image),
        None => Err(
            PipelineError::ImageDecode {
                path: String::from_str(path),
                detail: String::from_str("decoded pixels do not fill the image"),
            },
        ),
    }
}

} // verus!
