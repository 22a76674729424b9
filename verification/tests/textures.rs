use gl_sandbox::gfx::context::{Command, Context, Target};
use gl_sandbox::gfx::texture::{
    ColorType, DecodedImage, DecodingResult, MagnifyFilter, MinifyFilter, Parameter, PixelFormat,
    Texture, TextureError, WrapFunction,
};

fn parameter(pname: u32, value: u32) -> Command {
    Command::TexParameter { target: gl::TEXTURE_2D, pname, value: value as i32 }
}

fn image(color: ColorType, data: DecodingResult) -> DecodedImage {
    DecodedImage { width: 2, height: 1, color, data }
}

#[test]
fn three_channels_upload_as_rgb() {
    let mut ctx = Context::new();
    let pixels = vec![1, 2, 3, 4, 5, 6];
    let texture =
        Texture::new(&mut ctx, 8, image(ColorType::RGB(8), DecodingResult::U8(pixels.clone())))
            .unwrap();
    assert_eq!(texture.id(), 8);
    assert_eq!(texture.size(), (2, 1));
    assert_eq!(texture.format(), PixelFormat::Rgb);
    assert_eq!(ctx.current(Target::Texture), 0);
    assert_eq!(
        ctx.take_commands(),
        vec![
            Command::BindTexture { target: gl::TEXTURE_2D, id: 8 },
            Command::TexImage {
                target: gl::TEXTURE_2D,
                level: 0,
                internal_format: gl::RGB8 as i32,
                width: 2,
                height: 1,
                border: 0,
                format: gl::RGB,
                ty: gl::UNSIGNED_BYTE,
                pixels,
            },
            Command::BindTexture { target: gl::TEXTURE_2D, id: 0 },
        ]
    );
}

#[test]
fn four_channels_upload_as_rgba() {
    let mut ctx = Context::new();
    let pixels = vec![1, 2, 3, 4, 5, 6, 7, 8];
    let texture =
        Texture::new(&mut ctx, 8, image(ColorType::RGBA(8), DecodingResult::U8(pixels.clone())))
            .unwrap();
    assert_eq!(texture.format(), PixelFormat::Rgba);
    assert_eq!(
        ctx.take_commands()[1],
        Command::TexImage {
            target: 0x0DE1,
            level: 0,
            internal_format: 0x8058,
            width: 2,
            height: 1,
            border: 0,
            format: 0x1908,
            ty: 0x1401,
            pixels,
        }
    );
}

#[test]
fn other_channel_counts_are_refused() {
    for color in [ColorType::Gray(8), ColorType::GrayA(8), ColorType::Palette(8)] {
        let mut ctx = Context::new();
        let r = Texture::new(&mut ctx, 8, image(color, DecodingResult::U8(vec![0, 0])));
        assert_eq!(r.unwrap_err(), TextureError::UnsupportedColor);
        assert_eq!(ctx.current(Target::Texture), 0);
        assert_eq!(
            ctx.take_commands(),
            vec![
                Command::BindTexture { target: gl::TEXTURE_2D, id: 8 },
                Command::BindTexture { target: gl::TEXTURE_2D, id: 0 },
                Command::DeleteTexture { id: 8 },
            ]
        );
    }
}

#[test]
fn wide_samples_are_refused() {
    let mut ctx = Context::new();
    let r = Texture::new(&mut ctx, 8, image(ColorType::RGB(16), DecodingResult::U16(vec![0; 6])));
    assert_eq!(r.unwrap_err(), TextureError::UnsupportedData);
    assert_eq!(ctx.take_commands().len(), 3);
}

#[test]
fn channels_are_looked_at_before_samples() {
    let mut ctx = Context::new();
    let r = Texture::new(&mut ctx, 8, image(ColorType::Gray(16), DecodingResult::U16(vec![0; 2])));
    assert_eq!(r.unwrap_err(), TextureError::UnsupportedColor);
}

#[test]
fn format_follows_the_channels() {
    assert_eq!(PixelFormat::for_color(ColorType::RGB(8)), Some(PixelFormat::Rgb));
    assert_eq!(PixelFormat::for_color(ColorType::RGB(16)), Some(PixelFormat::Rgb));
    assert_eq!(PixelFormat::for_color(ColorType::RGBA(8)), Some(PixelFormat::Rgba));
    assert_eq!(PixelFormat::for_color(ColorType::Gray(8)), None);
    assert_eq!(PixelFormat::for_color(ColorType::GrayA(8)), None);
    assert_eq!(PixelFormat::for_color(ColorType::Palette(8)), None);
}

#[test]
fn sampler_parameters_are_recorded_one_call_each() {
    let mut ctx = Context::new();
    let texture =
        Texture::new(&mut ctx, 8, image(ColorType::RGB(8), DecodingResult::U8(vec![0; 6])))
            .unwrap();
    ctx.take_commands();
    let guard = texture.bind(&mut ctx);
    guard.set_minify_filter(&mut ctx, MinifyFilter::LinearMipmapLinear);
    guard.set_magnify_filter(&mut ctx, MagnifyFilter::Nearest);
    guard.set_wrap_function(&mut ctx, (WrapFunction::Repeat, WrapFunction::MirrorClamp));
    assert!(guard.live(&ctx));
    guard.release(&mut ctx);
    assert_eq!(
        ctx.take_commands(),
        vec![
            Command::BindTexture { target: gl::TEXTURE_2D, id: 8 },
            parameter(gl::TEXTURE_MIN_FILTER, gl::LINEAR_MIPMAP_LINEAR),
            parameter(gl::TEXTURE_MAG_FILTER, gl::NEAREST),
            parameter(gl::TEXTURE_WRAP_S, gl::REPEAT),
            parameter(gl::TEXTURE_WRAP_T, gl::MIRROR_CLAMP_TO_EDGE),
            Command::BindTexture { target: gl::TEXTURE_2D, id: 0 },
        ]
    );
}

#[test]
fn deleting_a_texture_records_the_release() {
    let mut ctx = Context::new();
    let texture =
        Texture::new(&mut ctx, 8, image(ColorType::RGB(8), DecodingResult::U8(vec![0; 6])))
            .unwrap();
    ctx.take_commands();
    texture.delete(&mut ctx);
    assert_eq!(ctx.take_commands(), vec![Command::DeleteTexture { id: 8 }]);
}

#[test]
fn sampling_parameters_have_their_native_names() {
    assert_eq!(Parameter::WrapS.name(), gl::TEXTURE_WRAP_S);
    assert_eq!(Parameter::WrapT.name(), gl::TEXTURE_WRAP_T);
    assert_eq!(Parameter::MinFilter.name(), gl::TEXTURE_MIN_FILTER);
    assert_eq!(Parameter::MagFilter.name(), gl::TEXTURE_MAG_FILTER);
    assert_eq!(Parameter::WrapS.name(), 0x2802);
    assert_eq!(Parameter::WrapT.name(), 0x2803);
    assert_eq!(Parameter::MinFilter.name(), 0x2801);
    assert_eq!(Parameter::MagFilter.name(), 0x2800);
}

#[test]
fn fixed_names_of_an_upload() {
    let mut ctx = Context::new();
    Texture::new(&mut ctx, 1, image(ColorType::RGB(8), DecodingResult::U8(vec![0; 6]))).unwrap();
    match &ctx.take_commands()[1] {
        Command::TexImage { target, ty, .. } => {
            assert_eq!(*target, 0x0DE1);
            assert_eq!(*ty, 0x1401);
        }
        other => panic!("{:?}", other),
    }
}
