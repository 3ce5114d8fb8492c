use ckrl::context::ContextBuilder;
use ckrl::frame::{on_event, FrameStep, LoopEvent};
use ckrl::window::{GlProfile, GlRequest, InitHints};

#[test]
fn builder_defaults() {
    let b = ContextBuilder::new();
    assert_eq!(b.window_title, "ckrl");
    assert_eq!((b.window_width, b.window_height), (800, 600));
    assert_eq!(b.platform_hints, InitHints::default());
}

#[test]
fn default_hints() {
    let h = InitHints::default();
    assert!(h.vsync);
    assert!(!h.fullscreen);
    assert_eq!(h.gl_version, GlRequest::Latest);
    assert_eq!(h.gl_profile, GlProfile::Core);
    assert!(h.hardware_acceleration);
    assert!(h.srgb);
}

#[test]
fn builder_chains_settings() {
    let hints = InitHints {
        vsync: false,
        fullscreen: true,
        gl_version: GlRequest::Specific { major: 3, minor: 3 },
        gl_profile: GlProfile::Compatibility,
        hardware_acceleration: false,
        srgb: false,
    };
    let mut b = ContextBuilder::new();
    b.with_title("Hello window").with_size(1024, 768).with_hints(hints);
    assert_eq!(b.window_title, "Hello window");
    assert_eq!((b.window_width, b.window_height), (1024, 768));
    assert_eq!(b.platform_hints, hints);
}

#[test]
fn loop_turns() {
    let draw_only = FrameStep { draw: true, resize: None, present: false, exit: false };
    assert_eq!(on_event(LoopEvent::Other), draw_only);
    assert_eq!(on_event(LoopEvent::LoopDestroyed), draw_only);
    assert_eq!(on_event(LoopEvent::RedrawRequested), FrameStep { present: true, ..draw_only });
    assert_eq!(on_event(LoopEvent::CloseRequested), FrameStep { exit: true, ..draw_only });
    assert_eq!(
        on_event(LoopEvent::Resized { width: 640, height: 480 }),
        FrameStep { resize: Some((640, 480)), ..draw_only }
    );
}
