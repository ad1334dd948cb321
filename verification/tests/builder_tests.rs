use aeternum::builder::build;
use aeternum::builder::SourceImage;
use aeternum::builder::UpscaleOptions;
use aeternum::catalog::Model;
use aeternum::error::Error;
use aeternum::format::OutputExt;

fn model() -> Model {
    Model {
        name: String::from("ultrasharp"),
        file_path: String::from("/opt/models/ultrasharp.bin"),
    }
}

fn options_with_model() -> UpscaleOptions {
    let mut o = UpscaleOptions::default();
    o.model = Some(model());
    o
}

fn image(path: &str) -> SourceImage {
    SourceImage {
        path: String::from(path),
        pixel_width: 800,
        pixel_height: 600,
    }
}

#[test]
fn round_trip_output_path_for_jpeg() {
    let mut o = options_with_model();
    o.output_ext = OutputExt::JPEG;
    let inv = build(&image("a/cat.png"), &o, "/usr/bin/upscayl-bin").unwrap();
    assert_eq!(inv.output_path, "a/cat_upscaled.jpg");
}

#[test]
fn argument_list_is_exact_and_ordered() {
    let mut o = options_with_model();
    o.scale = 16;
    o.compression = 100;
    o.output_ext = OutputExt::WEBP;
    let inv = build(&image("a/cat.png"), &o, "/usr/bin/upscayl-bin").unwrap();
    assert_eq!(inv.exe_path, "/usr/bin/upscayl-bin");
    let args = inv.args();
    assert_eq!(
        args,
        vec![
            String::from("a/cat.png"),
            String::from("a/cat_upscaled.webp"),
            String::from("/opt/models/ultrasharp.bin"),
            String::from("16"),
            String::from("100"),
            String::from("webp"),
        ]
    );
}

#[test]
fn scale_and_compression_are_stringified_without_clamping() {
    for (scale, compression, s, c) in [
        (1u8, 0u8, "1", "0"),
        (4, 5, "4", "5"),
        (10, 42, "10", "42"),
        (16, 100, "16", "100"),
    ] {
        let mut o = options_with_model();
        o.scale = scale;
        o.compression = compression;
        let inv = build(&image("x.png"), &o, "exe").unwrap();
        let args = inv.args();
        assert_eq!(args[3], s);
        assert_eq!(args[4], c);
    }
}

#[test]
fn unsupported_extension_is_rejected_before_anything_else_happens() {
    let o = options_with_model();
    let r = build(&image("a/cat.bmp"), &o, "exe");
    match r {
        Err(Error::ImageFormatNotSupported(None, ext)) => assert_eq!(ext, "bmp"),
        other => panic!("expected ImageFormatNotSupported, got {:?}", other),
    }
}

#[test]
fn missing_model_is_rejected_first() {
    let o = UpscaleOptions::default();
    let r = build(&image("a/cat.bmp"), &o, "exe");
    assert!(matches!(r, Err(Error::FailedToUpscaleImage(None, _))));
}

#[test]
fn every_supported_input_extension_builds() {
    for name in ["a.png", "a.jpeg", "a.jpg", "a.webp"] {
        let o = options_with_model();
        assert!(build(&image(name), &o, "exe").is_ok(), "{} should build", name);
    }
}

#[test]
fn extension_match_is_exact() {
    let o = options_with_model();
    assert!(build(&image("a/cat.PNG"), &o, "exe").is_err());
}

#[test]
fn explicit_output_directory_is_used() {
    let mut o = options_with_model();
    o.output = Some(String::from("/tmp/out"));
    let inv = build(&image("a/cat.png"), &o, "exe").unwrap();
    assert_eq!(inv.output_path, "/tmp/out/cat_upscaled.png");

    o.output = Some(String::from("/tmp/out/"));
    let inv = build(&image("a/cat.png"), &o, "exe").unwrap();
    assert_eq!(inv.output_path, "/tmp/out/cat_upscaled.png");
}

#[test]
fn image_without_directory_stays_relative() {
    let o = options_with_model();
    let inv = build(&image("cat.png"), &o, "exe").unwrap();
    assert_eq!(inv.output_path, "cat_upscaled.png");
}

#[test]
fn default_options_are_the_documented_defaults() {
    let o = UpscaleOptions::default();
    assert!(o.model.is_none());
    assert_eq!(o.scale, 4);
    assert_eq!(o.compression, 0);
    assert!(o.output.is_none());
    assert!(matches!(o.output_ext, OutputExt::PNG));
}

#[test]
fn upscaled_dimensions_multiply_exactly() {
    let img = image("a/cat.png");
    assert_eq!(img.upscaled_dimensions(4), (3200, 2400));
    let big = SourceImage {
        path: String::from("big.png"),
        pixel_width: u32::MAX,
        pixel_height: u32::MAX,
    };
    let (w, h) = big.upscaled_dimensions(16);
    assert_eq!(w, u32::MAX as u64 * 16);
    assert_eq!(h, u32::MAX as u64 * 16);
}

#[test]
fn output_formats_map_to_their_tokens() {
    assert_eq!(OutputExt::PNG.token(), "png");
    assert_eq!(OutputExt::JPEG.token(), "jpg");
    assert_eq!(OutputExt::WEBP.token(), "webp");
    assert_eq!(OutputExt::PNG.name(), "PNG");
    assert_eq!(OutputExt::JPEG.name(), "JPEG");
    assert_eq!(OutputExt::WEBP.name(), "WEBP");
    let all = OutputExt::all();
    assert_eq!(all.len(), 3);
    assert!(matches!(all[0], OutputExt::PNG));
    assert!(matches!(all[1], OutputExt::JPEG));
    assert!(matches!(all[2], OutputExt::WEBP));
}
