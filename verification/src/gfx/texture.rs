//! Textures: 2D images resident in native memory, and their sampling
//! parameters.

use crate::gfx::context::{Call, Command, Context, Target};
use crate::gfx::native;
use vstd::prelude::*;

verus! {

/// How a texture is sampled when it covers fewer pixels than it has texels.
#[derive(Clone, Copy, Debug, PartialEq, Eq, Structural)]
pub enum MinifyFilter {
    Nearest,
    Linear,
    NearestMipmapNearest,
    LinearMipmapNearest,
    NearestMipmapLinear,
    LinearMipmapLinear,
}

impl MinifyFilter {
    /// The native name of the filter.
    pub open spec fn native_name(self) -> i32 {
        match self {
            MinifyFilter::Nearest => 0x2600,
            MinifyFilter::Linear => 0x2601,
            MinifyFilter::NearestMipmapNearest => 0x2700,
            MinifyFilter::LinearMipmapNearest => 0x2701,
            MinifyFilter::NearestMipmapLinear => 0x2702,
            MinifyFilter::LinearMipmapLinear => 0x2703,
        }
    }
}

impl From<MinifyFilter> for i32 {
    /// The native name of the filter.
    fn from(value: MinifyFilter) -> (r: i32) {
        match value {
            MinifyFilter::Nearest => native::nearest() as i32,
            MinifyFilter::Linear => native::linear() as i32,
            MinifyFilter::NearestMipmapNearest => native::nearest_mipmap_nearest() as i32,
            MinifyFilter::LinearMipmapNearest => native::linear_mipmap_nearest() as i32,
            MinifyFilter::NearestMipmapLinear => native::nearest_mipmap_linear() as i32,
            MinifyFilter::LinearMipmapLinear => native::linear_mipmap_linear() as i32,
        }
    }
}

impl vstd::std_specs::convert::FromSpecImpl<MinifyFilter> for i32 {
    open spec fn obeys_from_spec() -> bool {
        true
    }

    open spec fn from_spec(value: MinifyFilter) -> i32 {
        value.native_name()
    }
}

/// How a texture is sampled when it covers more pixels than it has texels.
#[derive(Clone, Copy, Debug, PartialEq, Eq, Structural)]
pub enum MagnifyFilter {
    Nearest,
    Linear,
}

impl MagnifyFilter {
    /// The native name of the filter.
    pub open spec fn native_name(self) -> i32 {
        match self {
            MagnifyFilter::Nearest => 0x2600,
            MagnifyFilter::Linear => 0x2601,
        }
    }
}

impl From<MagnifyFilter> for i32 {
    /// The native name of the filter.
    fn from(value: MagnifyFilter) -> (r: i32) {
        match value {
            MagnifyFilter::Nearest => native::nearest() as i32,
            MagnifyFilter::Linear => native::linear() as i32,
        }
    }
}

impl vstd::std_specs::convert::FromSpecImpl<MagnifyFilter> for i32 {
    open spec fn obeys_from_spec() -> bool {
        true
    }

    open spec fn from_spec(value: MagnifyFilter) -> i32 {
        value.native_name()
    }
}

/// What sampling does with a coordinate outside the texture.
#[derive(Clone, Copy, Debug, PartialEq, Eq, Structural)]
pub enum WrapFunction {
    Repeat,
    Mirror,
    Clamp,
    MirrorClamp,
}

impl WrapFunction {
    /// The native name of the wrap function.
    pub open spec fn native_name(self) -> i32 {
        match self {
            WrapFunction::Repeat => 0x2901,
            WrapFunction::Mirror => 0x8370,
            WrapFunction::Clamp => 0x812F,
            WrapFunction::MirrorClamp => 0x8743,
        }
    }
}

impl From<WrapFunction> for i32 {
    /// The native name of the wrap function.
    fn from(value: WrapFunction) -> (r: i32) {
        match value {
            WrapFunction::Repeat => native::repeat() as i32,
            WrapFunction::Mirror => native::mirrored_repeat() as i32,
            WrapFunction::Clamp => native::clamp_to_edge() as i32,
            WrapFunction::MirrorClamp => native::mirror_clamp_to_edge() as i32,
        }
    }
}

impl vstd::std_specs::convert::FromSpecImpl<WrapFunction> for i32 {
    open spec fn obeys_from_spec() -> bool {
        true
    }

    open spec fn from_spec(value: WrapFunction) -> i32 {
        value.native_name()
    }
}

/// The channels of a decoded image, each variant with the bits per channel.
#[derive(Clone, Copy, Debug, PartialEq, Eq, Structural)]
pub enum ColorType {
    Gray(u8),
    RGB(u8),
    Palette(u8),
    GrayA(u8),
    RGBA(u8),
}

/// The samples of a decoded image.
#[derive(Debug)]
pub enum DecodingResult {
    U8(Vec<u8>),
    U16(Vec<u16>),
}

/// A decoded image: its dimensions, its channels and its samples.
#[derive(Debug)]
pub struct DecodedImage {
    pub width: u32,
    pub height: u32,
    pub color: ColorType,
    pub data: DecodingResult,
}

/// The pixel layouts that a texture can be stored in.
#[derive(Clone, Copy, Debug, PartialEq, Eq, Structural)]
pub enum PixelFormat {
    Rgb,
    Rgba,
}

impl PixelFormat {
    /// The layout chosen for an image with the given channels: three
    /// channels are stored as RGB, four as RGBA, anything else is not
    /// supported.
    pub open spec fn of(color: ColorType) -> Option<PixelFormat> {
        match color {
            ColorType::RGB(_) => Some(PixelFormat::Rgb),
            ColorType::RGBA(_) => Some(PixelFormat::Rgba),
            _ => None,
        }
    }

    /// The native name of the sized storage format.
    pub open spec fn internal_name(self) -> i32 {
        match self {
            PixelFormat::Rgb => 0x8051,
            PixelFormat::Rgba => 0x8058,
        }
    }

    /// The native name of the layout of the uploaded pixels.
    pub open spec fn layout_name(self) -> u32 {
        match self {
            PixelFormat::Rgb => 0x1907,
            PixelFormat::Rgba => 0x1908,
        }
    }

    /// The layout chosen for an image with the given channels.
    pub fn for_color(color: ColorType) -> (format: Option<PixelFormat>)
        ensures
            format == PixelFormat::of(color),
    {
        match color {
            ColorType::RGB(_) => Some(PixelFormat::Rgb),
            ColorType::RGBA(_) => Some(PixelFormat::Rgba),
            _ => None,
        }
    }

    /// The native names of the storage format and of the pixel layout.
    pub fn native_names(self) -> (names: (i32, u32))
        ensures
            names.0 == self.internal_name(),
            names.1 == self.layout_name(),
    {
        match self {
            PixelFormat::Rgb => (native::rgb8() as i32, native::rgb()),
            PixelFormat::Rgba => (native::rgba8() as i32, native::rgba()),
        }
    }
}

/// The native name of the target that every texture is bound to: the 2D
/// target of the one texture unit in use.
pub open spec fn target_name() -> u32 {
    0x0DE1
}

/// The native name of the type of the uploaded samples: 8 bits, unsigned.
pub open spec fn sample_type_name() -> u32 {
    0x1401
}

/// The sampling parameters that a texture guard can set.
#[derive(Clone, Copy, Debug, PartialEq, Eq, Structural)]
pub enum Parameter {
    WrapS,
    WrapT,
    MinFilter,
    MagFilter,
}

impl Parameter {
    /// The native name of the parameter.
    pub open spec fn native_name(self) -> u32 {
        match self {
            Parameter::WrapS => 0x2802,
            Parameter::WrapT => 0x2803,
            Parameter::MinFilter => 0x2801,
            Parameter::MagFilter => 0x2800,
        }
    }

    /// The native name of the parameter.
    pub fn name(self) -> (r: u32)
        ensures
            r == self.native_name(),
    {
        match self {
            Parameter::WrapS => native::texture_wrap_s(),
            Parameter::WrapT => native::texture_wrap_t(),
            Parameter::MinFilter => native::texture_min_filter(),
            Parameter::MagFilter => native::texture_mag_filter(),
        }
    }
}

/// The call that sets one sampling parameter of the bound texture.
pub open spec fn parameter_call(parameter: Parameter, value: i32) -> Call {
    Call::TexParameter { target: target_name(), pname: parameter.native_name(), value }
}

/// The call that binds the texture `id`, or no texture if `id` is 0.
pub open spec fn bind_call(id: u32) -> Call {
    Call::BindTexture { target: target_name(), id }
}

/// Why an image could not become a texture.
#[derive(Clone, Copy, Debug, PartialEq, Eq, Structural)]
pub enum TextureError {
    /// The image has neither three nor four channels.
    UnsupportedColor,
    /// The samples are not 8 bits wide.
    UnsupportedData,
}

/// What uploading `image` amounts to: the call that uploads the whole image
/// as level 0 of the texture, without a border; or the reason why the image
/// cannot be uploaded. The channels are looked at first.
pub open spec fn upload_of(image: DecodedImage) -> Result<Call, TextureError> {
    match PixelFormat::of(image.color) {
        None => Err(TextureError::UnsupportedColor),
        Some(format) => match image.data {
            DecodingResult::U8(pixels) => Ok(
                Call::TexImage {
                    target: target_name(),
                    level: 0,
                    internal_format: format.internal_name(),
                    width: image.width,
                    height: image.height,
                    border: 0,
                    format: format.layout_name(),
                    ty: sample_type_name(),
                    pixels: pixels@,
                },
            ),
            DecodingResult::U16(_) => Err(TextureError::UnsupportedData),
        },
    }
}

/// The calls that making a texture with handle `id` from `image` records:
/// bind, upload, unbind; or, for an image that cannot be uploaded, bind,
/// unbind and delete.
pub open spec fn creation_calls(id: u32, image: DecodedImage) -> Seq<Call> {
    match upload_of(image) {
        Ok(upload) => seq![bind_call(id), upload, bind_call(0)],
        Err(_) => seq![bind_call(id), bind_call(0), Call::DeleteTexture { id }],
    }
}

/// A native 2D texture.
#[derive(Debug)]
pub struct Texture {
    id: u32,
    width: u32,
    height: u32,
    format: PixelFormat,
}

/// Evidence that a texture was bound. While the guard is live, the texture
/// is the current one.
pub struct ActiveTexture<'a> {
    texture: &'a Texture,
}

impl Texture {
    /// The native handle of the texture.
    pub closed spec fn handle(self) -> u32 {
        self.id
    }

    /// The native handle of the texture.
    pub fn id(&self) -> (id: u32)
        ensures
            id == self.handle(),
    {
        self.id
    }

    /// Width and height of the uploaded image, in pixels.
    pub closed spec fn dimensions(self) -> (u32, u32) {
        (self.width, self.height)
    }

    /// The layout that the image is stored in.
    pub closed spec fn pixel_format(self) -> PixelFormat {
        self.format
    }

    /// Width and height of the uploaded image, in pixels.
    pub fn size(&self) -> (size: (u32, u32))
        ensures
            size == self.dimensions(),
    {
        (self.width, self.height)
    }

    /// The layout that the image is stored in.
    pub fn format(&self) -> (format: PixelFormat)
        ensures
            format == self.pixel_format(),
    {
        self.format
    }

    /// Makes a texture with the freshly generated native handle `id` and
    /// uploads the whole image into it. An image that has neither three
    /// nor four channels, or whose samples are not 8 bits wide, is refused,
    /// and the native texture is released again. Either way no texture is
    /// bound afterwards.
    pub fn new(ctx: &mut Context, id: u32, image: DecodedImage) -> (r: Result<Texture, TextureError>)
        ensures
            match upload_of(image) {
                Ok(_) => r matches Ok(texture) && texture.handle() == id && texture.dimensions() == (
                    image.width,
                    image.height,
                ) && Some(texture.pixel_format()) == PixelFormat::of(image.color),
                Err(e) => r == Err::<Texture, TextureError>(e),
            },
            final(ctx).calls() == old(ctx).calls() + creation_calls(id, image),
            final(ctx).pending() == old(ctx).pending() + creation_calls(id, image),
            final(ctx).bindings() == old(ctx).bindings().set(Target::Texture, 0),
    {
        let mut texture = Texture {
            id,
            width: image.width,
            height: image.height,
            format: PixelFormat::Rgb,
        };
        let active = texture.bind(ctx);
        let written = active.write(ctx, image);
        active.release(ctx);
        assert(ctx.bindings() =~= old(ctx).bindings().set(Target::Texture, 0));
        match written {
            Ok(format) => {
                assert(ctx.calls() =~= old(ctx).calls() + creation_calls(id, image));
                assert(ctx.pending() =~= old(ctx).pending() + creation_calls(id, image));
                texture.format = format;
                Ok(texture)
            },
            Err(e) => {
                texture.delete(ctx);
                assert(ctx.calls() =~= old(ctx).calls() + creation_calls(id, image));
                assert(ctx.pending() =~= old(ctx).pending() + creation_calls(id, image));
                Err(e)
            },
        }
    }

    /// Makes the texture current and returns the guard that stands for that
    /// binding.
    pub fn bind<'a>(&'a self, ctx: &mut Context) -> (guard: ActiveTexture<'a>)
        ensures
            guard.resource() == *self,
            guard.is_live(*final(ctx)),
            final(ctx).calls() == old(ctx).calls().push(bind_call(self.handle())),
            final(ctx).pending() == old(ctx).pending().push(bind_call(self.handle())),
            final(ctx).bindings() == old(ctx).bindings().set(Target::Texture, self.handle()),
    {
        ctx.issue(Command::BindTexture { target: native::texture_2d(), id: self.id });
        ActiveTexture { texture: self }
    }

    /// Releases the native texture.
    pub fn delete(self, ctx: &mut Context)
        ensures
            final(ctx).calls() == old(ctx).calls().push(Call::DeleteTexture { id: self.handle() }),
            final(ctx).pending() == old(ctx).pending().push(
                Call::DeleteTexture { id: self.handle() },
            ),
            final(ctx).bindings() == old(ctx).bindings(),
    {
        ctx.issue(Command::DeleteTexture { id: self.id });
    }
}

impl<'a> ActiveTexture<'a> {
    /// The texture that the guard stands for.
    pub closed spec fn resource(self) -> Texture {
        *self.texture
    }

    /// Whether the guard's texture is the current one.
    pub open spec fn is_live(self, ctx: Context) -> bool {
        ctx.bindings().get(Target::Texture) == self.resource().handle()
    }

    /// Whether the guard's texture is the current one.
    pub fn live(&self, ctx: &Context) -> (b: bool)
        ensures
            b == self.is_live(*ctx),
    {
        ctx.current(Target::Texture) == self.texture.id
    }

    /// Sets the wrap function of the bound texture, first along s, then
    /// along t.
    pub fn set_wrap_function(&self, ctx: &mut Context, wrap: (WrapFunction, WrapFunction))
        requires
            self.is_live(*old(ctx)),
        ensures
            final(ctx).calls() == old(ctx).calls().push(
                parameter_call(Parameter::WrapS, wrap.0.native_name()),
            ).push(parameter_call(Parameter::WrapT, wrap.1.native_name())),
            final(ctx).pending() == old(ctx).pending().push(
                parameter_call(Parameter::WrapS, wrap.0.native_name()),
            ).push(parameter_call(Parameter::WrapT, wrap.1.native_name())),
            final(ctx).bindings() == old(ctx).bindings(),
    {
        self.set_parameter(ctx, Parameter::WrapS, i32::from(wrap.0));
        self.set_parameter(ctx, Parameter::WrapT, i32::from(wrap.1));
    }

    /// Sets the minify filter of the bound texture.
    pub fn set_minify_filter(&self, ctx: &mut Context, filter: MinifyFilter)
        requires
            self.is_live(*old(ctx)),
        ensures
            final(ctx).calls() == old(ctx).calls().push(
                parameter_call(Parameter::MinFilter, filter.native_name()),
            ),
            final(ctx).pending() == old(ctx).pending().push(
                parameter_call(Parameter::MinFilter, filter.native_name()),
            ),
            final(ctx).bindings() == old(ctx).bindings(),
    {
        self.set_parameter(ctx, Parameter::MinFilter, i32::from(filter));
    }

    /// Sets the magnify filter of the bound texture.
    pub fn set_magnify_filter(&self, ctx: &mut Context, filter: MagnifyFilter)
        requires
            self.is_live(*old(ctx)),
        ensures
            final(ctx).calls() == old(ctx).calls().push(
                parameter_call(Parameter::MagFilter, filter.native_name()),
            ),
            final(ctx).pending() == old(ctx).pending().push(
                parameter_call(Parameter::MagFilter, filter.native_name()),
            ),
            final(ctx).bindings() == old(ctx).bindings(),
    {
        self.set_parameter(ctx, Parameter::MagFilter, i32::from(filter));
    }

    /// Sets one sampling parameter of the bound texture.
    fn set_parameter(&self, ctx: &mut Context, parameter: Parameter, value: i32)
        requires
            self.is_live(*old(ctx)),
        ensures
            self.is_live(*final(ctx)),
            final(ctx).calls() == old(ctx).calls().push(parameter_call(parameter, value)),
            final(ctx).pending() == old(ctx).pending().push(parameter_call(parameter, value)),
            final(ctx).bindings() == old(ctx).bindings(),
    {
        ctx.issue(
            Command::TexParameter { target: native::texture_2d(), pname: parameter.name(), value },
        );
    }

    /// Uploads the whole image into the bound texture, unless its channels
    /// or its samples are not supported; then nothing is recorded.
    fn write(&self, ctx: &mut Context, image: DecodedImage) -> (r: Result<
        PixelFormat,
        TextureError,
    >)
        requires
            self.is_live(*old(ctx)),
        ensures
            match upload_of(image) {
                Ok(upload) => r matches Ok(format) && Some(format) == PixelFormat::of(image.color)
                    && final(ctx).calls() == old(ctx)
                    .calls().push(upload) && final(ctx).pending() == old(ctx).pending().push(
                    upload,
                ),
                Err(e) => r == Err::<PixelFormat, TextureError>(e) && final(ctx).calls() == old(ctx)
                    .calls()
                    && final(ctx).pending() == old(ctx).pending(),
            },
            final(ctx).bindings() == old(ctx).bindings(),
    {
        let (width, height) = (image.width, image.height);
        let chosen = match PixelFormat::for_color(image.color) {
            Some(f) => f,
            None => {
                return Err(TextureError::UnsupportedColor);
            },
        };
        let (int_format, format) = chosen.native_names();
        match image.data {
            DecodingResult::U8(v) => {
                ctx.issue(
                    Command::TexImage {
                        target: native::texture_2d(),
                        level: 0,
                        internal_format: int_format,
                        width,
                        height,
                        border: 0,
                        format,
                        ty: native::unsigned_byte(),
                        pixels: v,
                    },
                );
                Ok(chosen)
            },
            _ => Err(TextureError::UnsupportedData),
        }
    }

    /// Ends the binding: no texture is current afterwards.
    pub fn release(self, ctx: &mut Context)
        ensures
            final(ctx).calls() == old(ctx).calls().push(bind_call(0)),
            final(ctx).pending() == old(ctx).pending().push(bind_call(0)),
            final(ctx).bindings() == old(ctx).bindings().set(Target::Texture, 0),
            final(ctx).bindings().get(Target::Texture) == 0,
    {
        ctx.issue(Command::BindTexture { target: native::texture_2d(), id: 0 });
    }
}

} // verus!
