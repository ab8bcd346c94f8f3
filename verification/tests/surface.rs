use clearframe::surface::{GraphicsContext, SurfaceCaps, SurfaceFormat, select_format};

fn fmt(code: u32, srgb: bool) -> SurfaceFormat {
    SurfaceFormat { code, srgb }
}

fn caps(formats: Vec<SurfaceFormat>, present_modes: Vec<u32>, alpha_modes: Vec<u32>) -> SurfaceCaps {
    SurfaceCaps { formats, present_modes, alpha_modes }
}

#[test]
fn select_picks_first_srgb() {
    let formats = vec![fmt(0, false), fmt(1, true), fmt(2, true)];
    let r = select_format(&formats);
    assert_eq!(r, fmt(1, true));
}

#[test]
fn select_picks_srgb_at_head() {
    let formats = vec![fmt(3, true), fmt(4, false)];
    let r = select_format(&formats);
    assert_eq!(r, fmt(3, true));
}

#[test]
fn select_falls_back_to_first_entry() {
    let formats = vec![fmt(5, false), fmt(6, false), fmt(7, false)];
    let r = select_format(&formats);
    assert_eq!(r, fmt(5, false));
}

#[test]
fn select_single_entry() {
    let formats = vec![fmt(9, false)];
    let r = select_format(&formats);
    assert_eq!(r, fmt(9, false));
}

#[test]
fn new_context_uses_first_reported_modes() {
    let c = caps(vec![fmt(0, false), fmt(1, true)], vec![40, 41], vec![50, 51]);
    let ctx = GraphicsContext::new(&c, 512, 512);
    assert_eq!(ctx.config.format, fmt(1, true));
    assert_eq!(ctx.config.present_mode, 40);
    assert_eq!(ctx.config.alpha_mode, 50);
    assert_eq!(ctx.config.width, 512);
    assert_eq!(ctx.config.height, 512);
    assert_eq!(ctx.current_width, 512);
    assert_eq!(ctx.current_height, 512);
    assert!(ctx.is_configured());
}

#[test]
fn new_context_with_zero_size_is_unconfigured() {
    let c = caps(vec![fmt(0, true)], vec![1], vec![2]);
    let ctx = GraphicsContext::new(&c, 0, 0);
    assert!(!ctx.is_configured());
    let ctx2 = GraphicsContext::new(&c, 0, 300);
    assert!(!ctx2.is_configured());
    let ctx3 = GraphicsContext::new(&c, 300, 0);
    assert!(!ctx3.is_configured());
}

#[test]
fn reconfigure_sets_size_and_keeps_modes() {
    let c = caps(vec![fmt(0, true)], vec![7], vec![8]);
    let mut ctx = GraphicsContext::new(&c, 512, 512);
    let apply = ctx.reconfigure(800, 600);
    assert!(apply);
    assert_eq!(ctx.config.width, 800);
    assert_eq!(ctx.config.height, 600);
    assert_eq!(ctx.current_width, 800);
    assert_eq!(ctx.current_height, 600);
    assert_eq!(ctx.config.format, fmt(0, true));
    assert_eq!(ctx.config.present_mode, 7);
    assert_eq!(ctx.config.alpha_mode, 8);
}

#[test]
fn reconfigure_zero_dimension_is_a_no_op() {
    let c = caps(vec![fmt(0, true)], vec![7], vec![8]);
    let mut ctx = GraphicsContext::new(&c, 512, 512);
    let before = ctx;
    assert!(!ctx.reconfigure(0, 600));
    assert_eq!(ctx, before);
    assert!(!ctx.reconfigure(800, 0));
    assert_eq!(ctx, before);
    assert!(!ctx.reconfigure(0, 0));
    assert_eq!(ctx, before);
}

#[test]
fn reconfigure_is_idempotent() {
    let c = caps(vec![fmt(0, true)], vec![7], vec![8]);
    let mut once = GraphicsContext::new(&c, 512, 512);
    once.reconfigure(800, 600);
    let mut many = GraphicsContext::new(&c, 512, 512);
    for _ in 0..5 {
        many.reconfigure(800, 600);
    }
    assert_eq!(once, many);
    for _ in 0..5 {
        many.reconfigure(0, 0);
    }
    assert_eq!(once, many);
}

#[test]
fn reconfigure_unconfigured_context_becomes_configured() {
    let c = caps(vec![fmt(0, false)], vec![1], vec![2]);
    let mut ctx = GraphicsContext::new(&c, 0, 0);
    assert!(!ctx.is_configured());
    assert!(ctx.reconfigure(64, 48));
    assert!(ctx.is_configured());
    assert_eq!(ctx.config.width, 64);
    assert_eq!(ctx.config.height, 48);
}
