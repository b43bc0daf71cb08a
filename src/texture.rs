use vstd::prelude::*;

verus! {

/// `GL_TEXTURE_2D`: the target that textures are bound to.
pub const GL_TEXTURE_2D: u32 = 0x0DE1;

/// `GL_TEXTURE_MIN_FILTER`: the minification filter parameter.
pub const GL_TEXTURE_MIN_FILTER: u32 = 0x2801;

/// `GL_TEXTURE_MAG_FILTER`: the magnification filter parameter.
pub const GL_TEXTURE_MAG_FILTER: u32 = 0x2800;

/// `GL_LINEAR`: linear filtering.
pub const GL_LINEAR: i32 = 0x2601;

/// `GL_RED`: one colour channel.
pub const GL_RED: u32 = 0x1903;

/// `GL_RG`: two colour channels.
pub const GL_RG: u32 = 0x8227;

/// `GL_RGB`: three colour channels.
pub const GL_RGB: u32 = 0x1907;

/// `GL_RGBA`: four colour channels.
pub const GL_RGBA: u32 = 0x1908;

/// `GL_UNSIGNED_BYTE`: one byte per channel.
pub const GL_UNSIGNED_BYTE: u32 = 0x1401;

/// `GL_FLOAT`: one 32-bit float per channel.
pub const GL_FLOAT: u32 = 0x1406;

/// The largest image side that the graphics API's signed 32-bit size type holds.
pub const MAX_SIDE: usize = 0x7fff_ffff;

/// Why an image could not become a texture.
#[derive(Debug, Clone, PartialEq, Eq)]
pub enum ImageLoadingError {
    /// The decoder refused the bytes; holds its message.
    InvalidImage(String),
    /// The channel depth is not one of one to four.
    UnsupportedFormat,
    /// A side does not fit the signed 32-bit size type.
    TooLarge,
}

/// The element type of the pixels that the decoder produced.
#[derive(Debug, Clone, Copy, PartialEq, Eq, Structural)]
pub enum ElementType {
    /// Eight bits per channel.
    UnsignedByte,
    /// A 32-bit float per channel.
    Float,
}

impl ElementType {
    pub open spec fn spec_gl_type(self) -> u32 {
        match self {
            ElementType::UnsignedByte => GL_UNSIGNED_BYTE,
            ElementType::Float => GL_FLOAT,
        }
    }

    /// The graphics API's name for this element type.
    pub fn gl_type(&self) -> (r: u32)
        ensures
            r == self.spec_gl_type(),
    {
        match self {
            ElementType::UnsignedByte => GL_UNSIGNED_BYTE,
            ElementType::Float => GL_FLOAT,
        }
    }
}

/// What the image decoder reported for a buffer of encoded bytes: its
/// message on failure, or the element type and shape of the pixels.
#[derive(Debug, Clone, PartialEq, Eq)]
pub enum Decoded {
    Error(String),
    ImageU8 { width: usize, height: usize, depth: usize },
    ImageF32 { width: usize, height: usize, depth: usize },
}

/// The common description of decoded pixels, sides already in the
/// graphics API's size type.
#[derive(Debug, Clone, Copy, PartialEq, Eq, Structural)]
pub struct Image {
    pub gl_type: u32,
    pub width: i32,
    pub height: i32,
    pub depth: usize,
}

/// The arguments of the pixel upload of a texture.
#[derive(Debug, Clone, Copy, PartialEq, Eq, Structural)]
pub struct TextureUpload {
    /// Always `GL_RGBA`, in the signed type that the API takes it in.
    pub internal_format: i32,
    pub width: i32,
    pub height: i32,
    /// The pixel format chosen from the channel depth.
    pub format: u32,
    /// The element type of the pixels.
    pub gl_type: u32,
}

/// The pixel format for a channel depth, if the depth is one of one to four.
pub open spec fn spec_format_of_depth(depth: usize) -> Option<u32> {
    if depth == 1 {
        Some(GL_RED)
    } else if depth == 2 {
        Some(GL_RG)
    } else if depth == 3 {
        Some(GL_RGB)
    } else if depth == 4 {
        Some(GL_RGBA)
    } else {
        None
    }
}

/// Whether a side fits the graphics API's signed 32-bit size type.
pub open spec fn fits_side(side: usize) -> bool {
    side <= MAX_SIDE
}

/// Picks the pixel format that matches a channel depth.
pub fn format_from_depth(depth: usize) -> (r: Result<u32, ImageLoadingError>)
    ensures
        match spec_format_of_depth(depth) {
            Some(f) => r == Ok::<u32, ImageLoadingError>(f),
            None => r == Err::<u32, ImageLoadingError>(ImageLoadingError::UnsupportedFormat),
        },
{
    match depth {
        1 => Ok(GL_RED),
        2 => Ok(GL_RG),
        3 => Ok(GL_RGB),
        4 => Ok(GL_RGBA),
        _ => Err(ImageLoadingError::UnsupportedFormat),
    }
}

impl Image {
    fn convert_dimension(dimension: usize) -> (r: Result<i32, ImageLoadingError>)
        ensures
            fits_side(dimension) ==> r == Ok::<i32, ImageLoadingError>(dimension as i32),
            !fits_side(dimension) ==> r == Err::<i32, ImageLoadingError>(
                ImageLoadingError::TooLarge,
            ),
    {
        if dimension <= MAX_SIDE {
            Ok(dimension as i32)
        } else {
            Err(ImageLoadingError::TooLarge)
        }
    }

    /// Describes pixels of the given element type and shape; fails with
    /// `TooLarge` when a side does not fit the signed 32-bit size type.
    pub fn of(element: ElementType, width: usize, height: usize, depth: usize) -> (r: Result<
        Image,
        ImageLoadingError,
    >)
        ensures
            fits_side(width) && fits_side(height) ==> r == Ok::<Image, ImageLoadingError>(
                (Image {
                    gl_type: element.spec_gl_type(),
                    width: width as i32,
                    height: height as i32,
                    depth,
                }),
            ),
            !(fits_side(width) && fits_side(height)) ==> r == Err::<Image, ImageLoadingError>(
                ImageLoadingError::TooLarge,
            ),
    {
        let width = match Self::convert_dimension(width) {
            Ok(w) => w,
            Err(e) => return Err(e),
        };
        let height = match Self::convert_dimension(height) {
            Ok(h) => h,
            Err(e) => return Err(e),
        };
        Ok(Image { gl_type: element.gl_type(), width, height, depth })
    }

    /// Describes eight-bit pixels of the given shape.
    pub fn from_byte(width: usize, height: usize, depth: usize) -> (r: Result<
        Image,
        ImageLoadingError,
    >)
        ensures
            fits_side(width) && fits_side(height) ==> r == Ok::<Image, ImageLoadingError>(
                (Image { gl_type: GL_UNSIGNED_BYTE, width: width as i32, height: height as i32, depth }),
            ),
            !(fits_side(width) && fits_side(height)) ==> r == Err::<Image, ImageLoadingError>(
                ImageLoadingError::TooLarge,
            ),
    {
        Self::of(ElementType::UnsignedByte, width, height, depth)
    }

    /// Describes 32-bit float pixels of the given shape.
    pub fn from_float(width: usize, height: usize, depth: usize) -> (r: Result<
        Image,
        ImageLoadingError,
    >)
        ensures
            fits_side(width) && fits_side(height) ==> r == Ok::<Image, ImageLoadingError>(
                (Image { gl_type: GL_FLOAT, width: width as i32, height: height as i32, depth }),
            ),
            !(fits_side(width) && fits_side(height)) ==> r == Err::<Image, ImageLoadingError>(
                ImageLoadingError::TooLarge,
            ),
    {
        Self::of(ElementType::Float, width, height, depth)
    }
}

/// What uploading decoded pixels of the given element type and shape
/// comes to: `TooLarge` when a side does not fit the signed 32-bit size type,
/// else `UnsupportedFormat` when the depth is not one of one to four, else the
/// upload with the matching pixel format and an RGBA internal format.
pub open spec fn spec_upload_of(element: ElementType, width: usize, height: usize, depth: usize) -> Result<
    TextureUpload,
    ImageLoadingError,
> {
    if !(fits_side(width) && fits_side(height)) {
        Err(ImageLoadingError::TooLarge)
    } else {
        match spec_format_of_depth(depth) {
            None => Err(ImageLoadingError::UnsupportedFormat),
            Some(format) => Ok(
                TextureUpload {
                    internal_format: GL_RGBA as i32,
                    width: width as i32,
                    height: height as i32,
                    format,
                    gl_type: element.spec_gl_type(),
                },
            ),
        }
    }
}

/// What uploading the decoder's report comes to.
pub open spec fn spec_upload(decoded: Decoded) -> Result<TextureUpload, ImageLoadingError> {
    match decoded {
        Decoded::Error(message) => Err(ImageLoadingError::InvalidImage(message)),
        Decoded::ImageU8 { width, height, depth } => spec_upload_of(
            ElementType::UnsignedByte,
            width,
            height,
            depth,
        ),
        Decoded::ImageF32 { width, height, depth } => spec_upload_of(
            ElementType::Float,
            width,
            height,
            depth,
        ),
    }
}

/// The pixel format follows the channel depth alone: for sides that fit,
/// depths one to four select the one-, two-, three- and four-channel formats
/// (with an RGBA internal format), and any other depth is unsupported.
pub proof fn lemma_format_follows_depth(
    element: ElementType,
    width: usize,
    height: usize,
    depth: usize,
)
    requires
        fits_side(width),
        fits_side(height),
    ensures
        depth == 1 ==> (spec_upload_of(element, width, height, depth) matches Ok(u) && u.format
            == GL_RED),
        depth == 2 ==> (spec_upload_of(element, width, height, depth) matches Ok(u) && u.format
            == GL_RG),
        depth == 3 ==> (spec_upload_of(element, width, height, depth) matches Ok(u) && u.format
            == GL_RGB),
        depth == 4 ==> (spec_upload_of(element, width, height, depth) matches Ok(u) && u.format
            == GL_RGBA),
        spec_upload_of(element, width, height, depth) matches Ok(u) ==> u.internal_format
            == GL_RGBA as i32 && u.gl_type == element.spec_gl_type(),
        depth == 0 || depth >= 5 ==> spec_upload_of(element, width, height, depth) == Err::<
            TextureUpload,
            ImageLoadingError,
        >(ImageLoadingError::UnsupportedFormat),
{
}

/// Sides are bounded by the signed 32-bit maximum: a side above it gives
/// `TooLarge` whatever the depth, and sides equal to it are accepted with
/// their value kept.
pub proof fn lemma_side_bound(element: ElementType, width: usize, height: usize, depth: usize)
    ensures
        width > MAX_SIDE || height > MAX_SIDE ==> spec_upload_of(element, width, height, depth)
            == Err::<TextureUpload, ImageLoadingError>(ImageLoadingError::TooLarge),
        1 <= depth <= 4 ==> (spec_upload_of(element, MAX_SIDE, MAX_SIDE, depth) matches Ok(u) && u.width == 0x7fff_ffff && u.height == 0x7fff_ffff),
{
}

/// Decides how the pixels that the decoder reported are uploaded, or why
/// they cannot be.
pub fn upload_parameters(decoded: Decoded) -> (r: Result<TextureUpload, ImageLoadingError>)
    ensures
        r == spec_upload(decoded),
{
    let image = match decoded {
        Decoded::Error(message) => return Err(ImageLoadingError::InvalidImage(message)),
        Decoded::ImageU8 { width, height, depth } => Image::from_byte(width, height, depth),
        Decoded::ImageF32 { width, height, depth } => Image::from_float(width, height, depth),
    };
    let image = match image {
        Ok(image) => image,
        Err(e) => return Err(e),
    };
    let format = match format_from_depth(image.depth) {
        Ok(format) => format,
        Err(e) => return Err(e),
    };
    Ok(
        TextureUpload {
            internal_format: GL_RGBA as i32,
            width: image.width,
            height: image.height,
            format,
            gl_type: image.gl_type,
        },
    )
}

/// One graphics call in making a texture, on the texture object that the
/// first one creates.
#[derive(Debug, Clone, Copy, PartialEq, Eq, Structural)]
pub enum TextureCommand {
    /// Create a 2D texture object and bind it.
    Create,
    /// Set the minification filter to linear.
    MinFilterLinear,
    /// Set the magnification filter to linear.
    MagFilterLinear,
    /// Upload the pixels with these arguments.
    Upload(TextureUpload),
    /// Generate the mip chain from the uploaded pixels.
    GenerateMipmap,
}

/// The calls that make a texture from pixels that can be uploaded: create,
/// set both filters to linear, upload, then generate the mip chain.
pub open spec fn spec_texture_commands(upload: TextureUpload) -> Seq<TextureCommand> {
    seq![
        TextureCommand::Create,
        TextureCommand::MinFilterLinear,
        TextureCommand::MagFilterLinear,
        TextureCommand::Upload(upload),
        TextureCommand::GenerateMipmap,
    ]
}

/// The graphics calls that make a texture from what the decoder reported,
/// or why none can be made; on failure no call is made, so no partial
/// texture is left behind.
pub fn texture_commands(decoded: Decoded) -> (r: Result<Vec<TextureCommand>, ImageLoadingError>)
    ensures
        match spec_upload(decoded) {
            Ok(upload) => r matches Ok(cmds) && cmds@ == spec_texture_commands(upload),
            Err(e) => r == Err::<Vec<TextureCommand>, ImageLoadingError>(e),
        },
{
    let upload = match upload_parameters(decoded) {
        Ok(upload) => upload,
        Err(e) => return Err(e),
    };
    let cmds = vec![
        TextureCommand::Create,
        TextureCommand::MinFilterLinear,
        TextureCommand::MagFilterLinear,
        TextureCommand::Upload(upload),
        TextureCommand::GenerateMipmap,
    ];
    assert(cmds@ =~= spec_texture_commands(upload));
    Ok(cmds)
}

/// In making a texture, the object is created once and first, both filters
/// are set before the pixels are uploaded, the pixels are uploaded once, and
/// the mip chain is generated once, last, from them.
pub proof fn lemma_filter_before_upload(upload: TextureUpload)
    ensures
        ({
            let s = spec_texture_commands(upload);
            &&& s.no_duplicates()
            &&& s[0] == TextureCommand::Create
            &&& forall|i: int, j: int|
                0 <= i < s.len() && 0 <= j < s.len() && (#[trigger] s[i]
                    == TextureCommand::MinFilterLinear || s[i] == TextureCommand::MagFilterLinear)
                    && (#[trigger] s[j] matches TextureCommand::Upload(_)) ==> i < j
            &&& forall|j: int| 0 <= j < s.len() && (#[trigger] s[j] matches TextureCommand::Upload(_)) ==> s[j] == TextureCommand::Upload(upload) && j == s.len() - 2
            &&& s.last() == TextureCommand::GenerateMipmap
        }),
{
}

/// A texture object on the graphics device, with its filtering set to
/// linear, its pixels uploaded and its mip chain generated.
pub struct Texture {
    handle: u32,
}

impl View for Texture {
    type V = u32;

    closed spec fn view(&self) -> u32 {
        self.handle
    }
}

impl Texture {
    /// Takes ownership of a texture object whose pixels have been uploaded.
    pub fn from_handle(handle: u32) -> (r: Texture)
        ensures
            r@ == handle,
    {
        Texture { handle }
    }

    /// The graphics API's name of the texture object.
    pub fn handle(&self) -> (r: u32)
        ensures
            r == self@,
    {
        self.handle
    }
}

} // verus!
