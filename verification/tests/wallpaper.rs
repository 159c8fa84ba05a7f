use space_eye::display::{Display, DisplayError, DisplayRegistry};
use space_eye::wallpaper::{
    conclude, request, set_wallpaper, ApplyError, PlatformOptions, RenderOptions, Rgba,
    ScalingMode, CHANNEL_FULL,
};

fn yellow() -> Rgba {
    Rgba { red: 255, green: 255, blue: 0, alpha: 255 }
}

fn options(scaling: ScalingMode) -> RenderOptions {
    RenderOptions { scaling, background_color: yellow(), allow_clipping: true }
}

#[test]
fn scaling_codes_are_one_two_three() {
    assert_eq!(ScalingMode::AxesIndependent.code(), 1);
    assert_eq!(ScalingMode::NoScaling.code(), 2);
    assert_eq!(ScalingMode::ProportionalFit.code(), 3);
}

#[test]
fn scaling_codes_differ_and_stay_within_one_to_three() {
    let codes = [
        ScalingMode::AxesIndependent.code(),
        ScalingMode::NoScaling.code(),
        ScalingMode::ProportionalFit.code(),
    ];
    for (i, a) in codes.iter().enumerate() {
        assert!((1..=3).contains(a));
        for b in codes.iter().skip(i + 1) {
            assert_ne!(a, b);
        }
    }
}

#[test]
fn bind_maps_every_option() {
    let bundle = options(ScalingMode::ProportionalFit).bind();
    assert_eq!(
        bundle,
        PlatformOptions { scaling_code: 3, allow_clipping: true, fill_color: yellow() }
    );
    let other = RenderOptions {
        scaling: ScalingMode::AxesIndependent,
        background_color: Rgba { red: 1, green: 2, blue: 3, alpha: 4 },
        allow_clipping: false,
    }
    .bind();
    assert_eq!(other.scaling_code, 1);
    assert!(!other.allow_clipping);
    assert_eq!(other.fill_color, Rgba { red: 1, green: 2, blue: 3, alpha: 4 });
    assert_eq!(options(ScalingMode::NoScaling).bind().scaling_code, 2);
}

#[test]
fn a_whole_channel_is_255() {
    assert_eq!(CHANNEL_FULL, 255);
    assert_eq!(u8::MAX, CHANNEL_FULL);
}

#[test]
fn request_names_the_display_the_path_and_the_bound_options() {
    let display = Display { external_id: 1, handle: 0xfeed_u64 };
    let call = request(&display, "/tmp/earth.jpg", &options(ScalingMode::NoScaling));
    assert_eq!(call.handle, 0xfeed_u64);
    assert_eq!(call.image_path, "/tmp/earth.jpg");
    assert_eq!(call.options, options(ScalingMode::NoScaling).bind());
}

#[test]
fn conclude_passes_success_on() {
    assert_eq!(conclude(Ok(())), Ok(()));
}

#[test]
fn conclude_carries_the_reason_of_a_refusal() {
    assert_eq!(
        conclude(Err(String::from("image unreadable"))),
        Err(ApplyError { reason: String::from("image unreadable") })
    );
}

#[test]
fn set_wallpaper_asks_for_the_resolved_display() {
    let registry = DisplayRegistry::new(vec![
        Display { external_id: 7, handle: "A" },
        Display { external_id: 9, handle: "B" },
    ]);
    let call =
        set_wallpaper(&registry, 9, "/p/img.png", &options(ScalingMode::ProportionalFit)).unwrap();
    assert_eq!(call.handle, "B");
    assert_eq!(call.image_path, "/p/img.png");
    assert_eq!(call.options.scaling_code, 3);
    assert!(call.options.allow_clipping);
    assert_eq!(call.options.fill_color, yellow());
}

#[test]
fn set_wallpaper_without_the_display_is_not_found() {
    let registry = DisplayRegistry::new(vec![Display { external_id: 7, handle: "A" }]);
    assert_eq!(
        set_wallpaper(&registry, 1, "/p/img.png", &options(ScalingMode::ProportionalFit)),
        Err(DisplayError::NotFound)
    );
}

#[test]
fn set_wallpaper_takes_the_first_of_two_displays_with_one_identifier() {
    let registry = DisplayRegistry::new(vec![
        Display { external_id: 1, handle: "first" },
        Display { external_id: 1, handle: "second" },
    ]);
    let call = set_wallpaper(&registry, 1, "x", &options(ScalingMode::NoScaling)).unwrap();
    assert_eq!(call.handle, "first");
}
