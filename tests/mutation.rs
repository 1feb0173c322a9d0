use rust_fractal_gui::coordinator::RenderMode;
use rust_fractal_gui::mutation::{
    decide_location, Action, Intent, LoadedLocation, Location, RendererState, Session, Settings,
};

fn location(iterations: u64) -> Location {
    Location {
        real: String::from("-0.75"),
        imag: String::from("0.1"),
        zoom: String::from("1E3"),
        zoom_exponent: -10,
        rotation: String::from("0"),
        iterations,
    }
}

fn session(iterations: u64) -> Session {
    Session::new(Settings {
        location: location(iterations),
        image_width: 640,
        image_height: 360,
        approximation_order: 16,
        analytic_derivative: false,
    })
}

fn agree(s: &Settings, r: &RendererState) -> bool {
    s.location.real == r.location.real
        && s.location.imag == r.location.imag
        && s.location.zoom == r.location.zoom
        && s.location.zoom_exponent == r.location.zoom_exponent
        && s.location.rotation == r.location.rotation
        && s.location.iterations == r.location.iterations
        && s.image_width == r.image_width
        && s.image_height == r.image_height
        && s.approximation_order == r.approximation_order
        && s.analytic_derivative == r.show_derivative
}

#[test]
fn zoom_direction_and_pan_table() {
    let current = location(1000);
    let reference = -10;
    let cases = [
        (false, -8, Action::Render(RenderMode::Fast)),
        (false, -10, Action::Render(RenderMode::Fast)),
        (false, -12, Action::Render(RenderMode::Full)),
        (true, -8, Action::Render(RenderMode::Full)),
        (true, -12, Action::Render(RenderMode::Full)),
    ];
    for (pan, exponent, expected) in cases.iter() {
        let mut requested = location(1000);
        requested.zoom = String::from("5E2");
        requested.zoom_exponent = *exponent;
        if *pan {
            requested.real = String::from("-0.7501");
        }
        assert_eq!(decide_location(&current, &requested, false, reference, 1000), *expected);
    }
}

#[test]
fn zoom_text_differing_only_in_case_is_unchanged() {
    let mut s = session(1000);
    assert_eq!(s.apply(Intent::SetZoom(String::from("1e3"), -10)), Action::Nothing);
    assert_eq!(s.settings.location.zoom, "1E3");
}

#[test]
fn zoom_out_reuses_reference_zoom_in_rebuilds_it() {
    let mut s = session(1000);
    assert_eq!(s.apply(Intent::SetZoom(String::from("5E2"), -9)), Action::Render(RenderMode::Fast));
    assert_eq!(s.renderer.location.zoom, "5E2");
    assert!(agree(&s.settings, &s.renderer));
    assert_eq!(s.apply(Intent::SetZoom(String::from("1E6"), -20)), Action::Render(RenderMode::Full));
    assert!(s.awaiting_full);
    s.render_finished(RenderMode::Full);
    assert!(agree(&s.settings, &s.renderer));
    assert_eq!(s.renderer.reference_zoom_exponent, -20);
}

#[test]
fn pan_always_rebuilds() {
    let mut s = session(1000);
    let mut l = location(1000);
    l.imag = String::from("0.2");
    assert_eq!(s.apply(Intent::SetLocation(l)), Action::Render(RenderMode::Full));
    assert_eq!(s.renderer.location.imag, "0.1");
    s.render_finished(RenderMode::Full);
    assert_eq!(s.renderer.location.imag, "0.2");
}

#[test]
fn unchanged_location_does_nothing() {
    let mut s = session(1000);
    assert_eq!(s.apply(Intent::SetLocation(location(1000))), Action::Nothing);
    assert_eq!(s.apply(Intent::SetRotation(String::from("0"))), Action::Nothing);
    assert!(!s.awaiting_full);
}

#[test]
fn rotation_alone_is_fast() {
    let mut s = session(1000);
    assert_eq!(s.apply(Intent::SetRotation(String::from("15"))), Action::Render(RenderMode::Fast));
    assert_eq!(s.renderer.location.rotation, "15");
    assert!(agree(&s.settings, &s.renderer));
}

#[test]
fn iteration_decrease_recolours_increase_rebuilds() {
    let mut s = session(1000);
    assert_eq!(s.apply(Intent::SetIterations(500)), Action::Repaint);
    assert_eq!(s.renderer.location.iterations, 500);
    assert_eq!(s.renderer.computed_iterations, 1000);
    assert_eq!(s.apply(Intent::SetIterations(1000)), Action::Repaint);
    assert_eq!(s.apply(Intent::SetIterations(1001)), Action::Render(RenderMode::Full));
}

#[test]
fn iterations_lowered_then_raised_past_computed() {
    let mut s = session(1000);
    let mut renders = 0;
    let first = s.apply(Intent::SetIterations(500));
    assert_eq!(first, Action::Repaint);
    if let Action::Render(_) = first {
        renders += 1;
    }
    let done = rust_fractal_gui::progress::final_snapshot(0, 0);
    assert_eq!(done.stage, 3);
    assert_eq!((done.fraction.numerator, done.fraction.denominator), (1, 1));
    let second = s.apply(Intent::SetIterations(2000));
    if let Action::Render(mode) = second {
        renders += 1;
        assert_eq!(mode, RenderMode::Full);
    }
    assert_eq!(renders, 1);
    s.render_finished(RenderMode::Full);
    assert_eq!(s.renderer.computed_iterations, 2000);
}

#[test]
fn rotation_and_iterations_together() {
    let mut s = session(1000);
    let mut l = location(800);
    l.rotation = String::from("30");
    assert_eq!(s.apply(Intent::SetLocation(l)), Action::Render(RenderMode::Fast));
    let mut l = location(3000);
    l.rotation = String::from("45");
    assert_eq!(s.apply(Intent::SetLocation(l)), Action::Render(RenderMode::Full));
}

#[test]
fn image_size_order_and_palette() {
    let mut s = session(1000);
    assert_eq!(s.apply(Intent::SetImageSize(640, 360)), Action::Nothing);
    assert_eq!(s.apply(Intent::SetImageSize(1280, 720)), Action::Render(RenderMode::Fast));
    assert_eq!(s.renderer.image_width, 1280);
    assert_eq!(s.apply(Intent::SetApproximationOrder(500)), Action::Render(RenderMode::Fast));
    assert_eq!(s.settings.approximation_order, 128);
    assert_eq!(s.apply(Intent::SetApproximationOrder(129)), Action::Nothing);
    assert_eq!(s.apply(Intent::SetApproximationOrder(1)), Action::Render(RenderMode::Fast));
    assert_eq!(s.renderer.approximation_order, 4);
    assert_eq!(s.apply(Intent::Recolor), Action::Repaint);
    assert!(agree(&s.settings, &s.renderer));
}

#[test]
fn derivative_toggle_computes_once() {
    let mut s = session(1000);
    assert_eq!(s.apply(Intent::ToggleDerivative), Action::Render(RenderMode::Fast));
    assert!(s.settings.analytic_derivative && s.renderer.show_derivative);
    assert_eq!(s.apply(Intent::ToggleDerivative), Action::Repaint);
    assert!(!s.settings.analytic_derivative && !s.renderer.show_derivative);
    assert_eq!(s.apply(Intent::ToggleDerivative), Action::Repaint);
}

#[test]
fn every_commit_ends_in_agreement() {
    let mut s = session(1000);
    let intents = vec![
        Intent::SetIterations(400),
        Intent::SetRotation(String::from("90")),
        Intent::SetZoom(String::from("2E3"), -11),
        Intent::SetImageSize(100, 50),
        Intent::SetIterations(5000),
        Intent::ToggleDerivative,
        Intent::Recolor,
    ];
    for intent in intents {
        if let Action::Render(mode) = s.apply(intent) {
            s.render_finished(mode);
        }
        assert!(agree(&s.settings, &s.renderer));
        assert!(!s.awaiting_full);
    }
}

fn nothing_loaded() -> LoadedLocation {
    LoadedLocation { real: None, imag: None, zoom: None, iterations: None, rotation: None, palette: false }
}

#[test]
fn loading_a_location_rebuilds() {
    let mut s = session(1000);
    let f = LoadedLocation {
        zoom: Some((String::from("4E20"), -68)),
        iterations: Some(20000),
        ..nothing_loaded()
    };
    assert_eq!(s.apply(Intent::Load(f)), Action::Render(RenderMode::Full));
    assert_eq!(s.settings.location.zoom, "4E20");
    assert_eq!(s.settings.location.iterations, 20000);
    assert_eq!(s.settings.location.real, "-0.75");
    assert!(s.awaiting_full);
    s.render_finished(RenderMode::Full);
    assert!(agree(&s.settings, &s.renderer));
    assert_eq!(s.renderer.reference_zoom_exponent, -68);
}

#[test]
fn loading_only_a_palette_recolours() {
    let mut s = session(1000);
    assert_eq!(s.apply(Intent::Load(LoadedLocation { palette: true, ..nothing_loaded() })), Action::Repaint);
    assert_eq!(s.apply(Intent::Load(nothing_loaded())), Action::Nothing);
    assert!(agree(&s.settings, &s.renderer));
}
