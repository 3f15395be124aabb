use winmux::canvas::{resolve_canvas_target, CanvasFault};
use winmux::handler::RecordingBuilder;
use winmux::message::RenderingUserEvent;
use winmux::params::RenderingParams;

type Msg = RenderingUserEvent<RecordingBuilder<u8>, u8>;

#[test]
fn broadcastable_messages_are_duplicable() {
    let m: Msg = RenderingUserEvent::InternalUpdateProps(17);
    assert!(matches!(
        m.try_duplicate(),
        Some(RenderingUserEvent::InternalUpdateProps(17))
    ));
    let o: Msg = RenderingUserEvent::Other(9);
    assert!(matches!(
        o.try_duplicate(),
        Some(RenderingUserEvent::Other(9))
    ));
}

#[test]
fn registry_mutating_messages_are_not_duplicable() {
    let c: Msg = RenderingUserEvent::InternalCreateWindow(0, RecordingBuilder::new());
    assert!(c.try_duplicate().is_none());
    let d: Msg = RenderingUserEvent::InternalDeleteWindow(0);
    assert!(d.try_duplicate().is_none());
}

#[test]
fn canvas_resolution_reports_first_missing_step() {
    assert_eq!(
        resolve_canvas_target(false, false, false, false),
        Err(CanvasFault::WindowMissing)
    );
    assert_eq!(
        resolve_canvas_target(true, false, false, false),
        Err(CanvasFault::DocumentMissing)
    );
    assert_eq!(
        resolve_canvas_target(true, true, false, true),
        Err(CanvasFault::ElementMissing)
    );
    assert_eq!(
        resolve_canvas_target(true, true, true, false),
        Err(CanvasFault::NotACanvas)
    );
    assert_eq!(resolve_canvas_target(true, true, true, true), Ok(()));
}

#[test]
fn params_get_and_set() {
    let mut p = RenderingParams::new(-3);
    assert_eq!(p.get(), -3);
    p.set(250);
    assert_eq!(p.get(), 250);
}
