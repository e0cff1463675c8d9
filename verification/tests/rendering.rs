use pixelflux::renderer::{
    open_device_message, validate_dimensions, RendererOpening, RendererReply, RendererStep,
    TargetPool, MAX_DIMENSION, TARGET_POOL_SIZE,
};
use pixelflux::{GlesGbmTarget, RendererError};

type Target = GlesGbmTarget<String, u8, u32, String, i64>;

fn pool(width: u32, height: u32) -> TargetPool<u32, String> {
    let mut opening = RendererOpening::start(width, height).expect("bounded");
    while opening.step().is_some() {
        opening.advance(RendererReply::Done).expect("opened");
    }
    let mut pool = opening.into_pool();
    assert_eq!(pool.target_size(), (width as i32, height as i32));
    let mut number: u32 = 0;
    while !pool.is_complete() {
        pool.supply(Some((number, format!("{width}x{height}#{number}"))))
            .expect("allocated");
        number += 1;
    }
    pool
}

fn target() -> Target {
    GlesGbmTarget::open(String::from("renderer"), 7, 128, pool(320, 240))
}

#[test]
fn dimensions_are_bounded_without_opening_a_device() {
    assert!(validate_dimensions(320, 240).is_ok());
    assert!(validate_dimensions(0, 240).is_err());
    assert!(validate_dimensions(320, 0).is_err());
    assert!(validate_dimensions(MAX_DIMENSION + 1, 240).is_err());
}

#[test]
fn dimension_bounds_are_inclusive() {
    assert!(validate_dimensions(1, MAX_DIMENSION).is_ok());
    assert!(validate_dimensions(MAX_DIMENSION, 1).is_ok());
    assert!(matches!(
        validate_dimensions(320, MAX_DIMENSION + 1),
        Err(RendererError::InvalidConfiguration)
    ));
}

#[test]
fn targets_are_leased_until_released() {
    let mut target = target();
    assert_eq!(target.pool_size(), TARGET_POOL_SIZE);
    assert_eq!(target.acquire_target(), Some(0));
    assert_eq!(target.acquire_target(), Some(1));
    assert_eq!(target.acquire_target(), None);
    assert!(target.release_target(0));
    assert!(!target.release_target(0));
    assert!(!target.release_target(2));
    assert_eq!(target.acquire_target(), Some(0));
    assert_eq!(target.acquire_target(), None);
}

#[test]
fn only_leased_targets_are_reached() {
    let mut target = target();
    assert_eq!(target.dmabuf(0), None);
    assert!(target.render_parts(0).is_none());
    assert_eq!(target.acquire_target(), Some(0));
    assert_eq!(target.dmabuf(0).map(String::as_str), Some("320x240#0"));
    assert_eq!(target.dmabuf(1), None);
    assert_eq!(target.dmabuf(2), None);
    assert!(target.render_parts(1).is_none());
    assert!(target.render_parts(2).is_none());
    let (renderer, dmabuf) = target.render_parts(0).expect("leased");
    renderer.push('!');
    dmabuf.push('?');
    assert_eq!(target.dmabuf(0).map(String::as_str), Some("320x240#0?"));
    assert_eq!(target.renderer().as_str(), "renderer!");
}

#[test]
fn resizing_replaces_the_whole_pool() {
    let mut target = target();
    assert!(matches!(target.resize(320, 240), Ok(None)));
    let mut replacement = target
        .resize(640, 480)
        .expect("free")
        .expect("another size");
    assert_eq!(replacement.target_size(), (640, 480));
    assert!(matches!(
        replacement.supply(None),
        Err(RendererError::Allocate)
    ));
    assert_eq!(target.dimensions(), (320, 240));
    target.replace_targets(pool(640, 480)).expect("free");
    assert_eq!(target.dimensions(), (640, 480));
    assert_eq!(target.acquire_target(), Some(0));
    assert_eq!(target.dmabuf(0).map(String::as_str), Some("640x480#0"));
}

#[test]
fn leased_targets_are_not_replaced() {
    let mut target = target();
    assert_eq!(target.acquire_target(), Some(0));
    assert!(matches!(target.resize(320, 240), Ok(None)));
    assert!(matches!(target.resize(640, 480), Err(RendererError::Busy)));
    assert!(matches!(
        target.resize(0, 480),
        Err(RendererError::InvalidConfiguration)
    ));
    assert!(matches!(
        target.replace_targets(pool(640, 480)),
        Err(RendererError::Busy)
    ));
    assert_eq!(target.dimensions(), (320, 240));
    assert_eq!(target.dmabuf(0).map(String::as_str), Some("320x240#0"));
}

#[test]
fn the_parts_of_a_target_are_kept() {
    let target = target();
    assert_eq!(target.render_node(), 128);
    assert_eq!(*target.allocator(), 7);
}

#[test]
fn renderers_open_in_order() {
    let mut opening = RendererOpening::start(320, 240).expect("bounded");
    let mut steps = Vec::new();
    while let Some(step) = opening.step() {
        steps.push(step);
        opening.advance(RendererReply::Done).expect("opened");
    }
    assert_eq!(
        steps,
        [
            RendererStep::OpenDevice,
            RendererStep::CloneDevice,
            RendererStep::GbmAllocator,
            RendererStep::GbmDevice,
            RendererStep::EglDisplay,
            RendererStep::EglContext,
            RendererStep::GlesRenderer,
            RendererStep::DrmNode,
        ]
    );
    assert!(matches!(
        RendererOpening::start(0, 240),
        Err(RendererError::InvalidConfiguration)
    ));
}

#[test]
fn the_first_failed_step_is_reported() {
    let titles = [
        "GBM allocator",
        "GBM device",
        "EGL display",
        "EGL context",
        "GLES renderer",
        "DRM node",
    ];
    for (number, title) in titles.iter().enumerate() {
        let mut opening = RendererOpening::start(320, 240).expect("bounded");
        for _ in 0..number + 2 {
            opening.advance(RendererReply::Done).expect("opened");
        }
        let step = opening.step().expect("pending");
        assert!(RendererReply::Failed.fits(step));
        let error = opening.advance(RendererReply::Failed).expect_err("failed");
        assert_eq!(
            error.message(),
            format!("failed to initialize the GLES/GBM renderer at {title}")
        );
        assert_eq!(opening.step(), Some(step));
    }
}

#[test]
fn failed_bindings_are_reported() {
    let target = target();
    assert!(target.bind_wayland_display(true).is_ok());
    assert_eq!(
        target
            .bind_wayland_display(false)
            .expect_err("failed")
            .message(),
        "failed to initialize the GLES/GBM renderer at Wayland EGL binding"
    );
}

#[test]
fn renderer_failures_are_reported() {
    for opened in 0..2 {
        let mut opening = RendererOpening::start(320, 240).expect("bounded");
        for _ in 0..opened {
            opening.advance(RendererReply::Done).expect("opened");
        }
        let step = opening.step().expect("pending");
        let cause = std::io::Error::from(std::io::ErrorKind::NotFound);
        let text = cause.to_string();
        let reply = RendererReply::DeviceFailed(cause);
        assert!(reply.fits(step));
        assert!(!RendererReply::Failed.fits(step));
        assert_eq!(
            opening.advance(reply).expect_err("failed").message(),
            format!("failed to open the DRM render node: {text}")
        );
    }
    assert_eq!(
        open_device_message("cause"),
        "failed to open the DRM render node: cause"
    );
    assert_eq!(
        RendererError::InvalidConfiguration.message(),
        "invalid GLES/GBM render-target configuration"
    );
    assert_eq!(
        RendererError::Allocate.message(),
        "failed to allocate the GLES/GBM render target"
    );
    assert_eq!(
        RendererError::Busy.message(),
        "all GLES/GBM render targets are leased"
    );
}
