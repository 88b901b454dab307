use google_conway::surface::{Acquisition, InitError, PixelFormat, SurfaceConfig};

fn config(width: u32, height: u32) -> SurfaceConfig {
    SurfaceConfig { width, height, format: PixelFormat::Rgba8UnormSrgb }
}

#[test]
fn resized_takes_a_positive_size() {
    assert_eq!(config(800, 600).resized(1024, 768), config(1024, 768));
    assert_eq!(config(800, 600).resized(1, 1), config(1, 1));
    assert_eq!(config(800, 600).resized(u32::MAX, u32::MAX), config(u32::MAX, u32::MAX));
}

#[test]
fn resized_ignores_a_zero_width() {
    assert_eq!(config(800, 600).resized(0, 768), config(800, 600));
    assert_eq!(config(800, 600).resized(0, u32::MAX), config(800, 600));
}

#[test]
fn resized_ignores_a_zero_height() {
    assert_eq!(config(800, 600).resized(1024, 0), config(800, 600));
    assert_eq!(config(800, 600).resized(u32::MAX, 0), config(800, 600));
}

#[test]
fn resized_ignores_a_zero_size() {
    assert_eq!(config(800, 600).resized(0, 0), config(800, 600));
}

#[test]
fn resized_keeps_the_format() {
    let other = SurfaceConfig { width: 3, height: 4, format: PixelFormat::Other };
    assert_eq!(
        other.resized(5, 6),
        SurfaceConfig { width: 5, height: 6, format: PixelFormat::Other }
    );
}

#[test]
fn acquisition_without_surface_is_fatal() {
    assert_eq!(Acquisition::NoSurface.outcome(), Err(InitError::NoSurface));
}

#[test]
fn acquisition_without_adapter_is_fatal() {
    assert_eq!(Acquisition::NoAdapter.outcome(), Err(InitError::NoAdapter));
}

#[test]
fn acquisition_without_device_is_fatal() {
    assert_eq!(Acquisition::NoDevice.outcome(), Err(InitError::NoDevice));
}

#[test]
fn acquisition_without_configuration_is_fatal() {
    assert_eq!(Acquisition::NoConfiguration.outcome(), Err(InitError::NoConfiguration));
}

#[test]
fn acquisition_with_another_format_is_fatal() {
    let other = SurfaceConfig { width: 800, height: 600, format: PixelFormat::Other };
    assert_eq!(Acquisition::Configured(other).outcome(), Err(InitError::WrongFormat));
}

#[test]
fn acquisition_with_the_expected_format_goes_on() {
    assert_eq!(Acquisition::Configured(config(800, 600)).outcome(), Ok(config(800, 600)));
    assert_eq!(Acquisition::Configured(config(0, 0)).outcome(), Ok(config(0, 0)));
}
