use gl_quad::startup::{
    config_template, early_window, picked_config_line, window_settings, ConfigTemplate, ContextApi,
    ContextRequest, ContextStep, Version, CONTEXT_FAILURE,
};

const TITLE: &str = "Glutin triangle gradient example (press Escape to exit)";

#[test]
fn window_is_transparent_and_titled() {
    let settings = window_settings();
    assert!(settings.transparent);
    assert_eq!(settings.title, TITLE);
}

#[test]
fn only_wgl_has_an_early_window() {
    assert!(early_window(false).is_none());
    let settings = early_window(true).unwrap();
    assert!(settings.transparent);
    assert_eq!(settings.title, TITLE);
}

#[test]
fn only_cgl_demands_transparency() {
    assert_eq!(config_template(false), ConfigTemplate { alpha_size: 8, transparency: false });
    assert_eq!(config_template(true), ConfigTemplate { alpha_size: 8, transparency: true });
}

#[test]
fn picked_config_line_counts_samples() {
    for samples in 0..=255u8 {
        assert_eq!(
            picked_config_line(samples),
            format!("Picked a config with {} samples", samples)
        );
    }
}

#[test]
fn requests_ask_for_their_api() {
    assert_eq!(ContextRequest::Default.api(), None);
    assert_eq!(ContextRequest::Gles.api(), Some(ContextApi::Gles(None)));
    assert_eq!(
        ContextRequest::Legacy.api(),
        Some(ContextApi::OpenGl(Some(Version { major: 2, minor: 1 })))
    );
}

/// The request that a display fulfils that supports only `supported`.
fn settle(supported: &[ContextRequest]) -> Option<ContextRequest> {
    let mut request = ContextRequest::first();
    loop {
        match request.after(supported.contains(&request)) {
            ContextStep::Created => return Some(request),
            ContextStep::Try(next) => request = next,
            ContextStep::Fail => return None,
        }
    }
}

#[test]
fn first_supported_request_is_fulfilled() {
    let [core, gles, legacy] =
        [ContextRequest::Default, ContextRequest::Gles, ContextRequest::Legacy];
    assert_eq!(settle(&[core, gles, legacy]), Some(core));
    assert_eq!(settle(&[legacy, gles]), Some(gles));
    assert_eq!(settle(&[legacy]), Some(legacy));
    assert_eq!(settle(&[]), None);
    assert_eq!(CONTEXT_FAILURE, "failed to create context");
}
