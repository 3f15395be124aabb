use winmux::channel::{ChannelClosed, MessageChannel};
use winmux::dispatch::Rendering;
use winmux::handler::{RecordingBuilder, RecordingHandler};
use winmux::message::RenderingUserEvent;
use winmux::proxy::CustomEventLoopProxy;

type Chan = MessageChannel<RecordingBuilder<u8>, u8>;
type Msg = RenderingUserEvent<RecordingBuilder<u8>, u8>;
type Core = Rendering<RecordingHandler<u8>>;

#[test]
fn create_window_ids_strictly_increase() {
    let mut chan: Chan = MessageChannel::new();
    let mut proxy = CustomEventLoopProxy::new();
    let a = proxy
        .create_window(&mut chan, RecordingBuilder::new())
        .unwrap();
    let b = proxy
        .create_window(&mut chan, RecordingBuilder::new())
        .unwrap();
    let c = proxy
        .create_window(&mut chan, RecordingBuilder::new())
        .unwrap();
    assert_eq!(a, 0);
    assert_eq!(b, 1);
    assert_eq!(c, 2);
    assert!(a < b && b < c);
}

#[test]
fn create_registers_exactly_one_handler() {
    let mut core: Core = Rendering::new();
    let mut ctx = ();
    let mut stop = false;
    let msg = Msg::InternalCreateWindow(4usize, RecordingBuilder::new());
    core.process_event(msg, &mut ctx, &mut stop);
    assert_eq!(core.registry.len(), 1);
    assert!(core.registry.contains(4));
    // the freshly built handler has not been invoked yet
    assert_eq!(core.registry.get(4).unwrap().times_invoked(), 0);
}

#[test]
fn delete_absent_id_is_a_noop() {
    let mut core: Core = Rendering::new();
    let mut ctx = ();
    let mut stop = false;
    core.process_event(
        Msg::InternalCreateWindow(0usize, RecordingBuilder::new()),
        &mut ctx,
        &mut stop,
    );
    core.process_event(
        Msg::InternalDeleteWindow(77usize),
        &mut ctx,
        &mut stop,
    );
    assert_eq!(core.registry.len(), 1);
    assert!(core.registry.contains(0));
    assert!(!core.registry.contains(77));
}

#[test]
fn broadcast_reaches_each_handler_exactly_once() {
    let mut core: Core = Rendering::new();
    let mut ctx = ();
    let mut stop = false;
    core.process_event(
        Msg::InternalCreateWindow(0usize, RecordingBuilder::new()),
        &mut ctx,
        &mut stop,
    );
    core.process_event(
        Msg::InternalCreateWindow(1usize, RecordingBuilder::new()),
        &mut ctx,
        &mut stop,
    );
    core.process_event(
        Msg::InternalUpdateProps(200u8),
        &mut ctx,
        &mut stop,
    );
    assert_eq!(core.registry.len(), 2);
    assert_eq!(core.registry.get(0).unwrap().times_invoked(), 1);
    assert_eq!(core.registry.get(0).unwrap().last_update(), Some(200));
    assert_eq!(core.registry.get(1).unwrap().times_invoked(), 1);
    assert_eq!(core.registry.get(1).unwrap().last_update(), Some(200));
}

#[test]
fn broadcast_to_zero_handlers_does_nothing() {
    let mut core: Core = Rendering::new();
    let mut ctx = ();
    let mut stop = false;
    core.process_event(
        Msg::InternalUpdateProps(9u8),
        &mut ctx,
        &mut stop,
    );
    assert_eq!(core.registry.len(), 0);
}

#[test]
fn second_create_under_same_id_wins() {
    let mut core: Core = Rendering::new();
    let mut ctx = ();
    let mut stop = false;
    core.process_event(
        Msg::InternalCreateWindow(5usize, RecordingBuilder::new()),
        &mut ctx,
        &mut stop,
    );
    // invoke the first handler once so it is distinguishable
    core.process_event(
        Msg::InternalUpdateProps(1u8),
        &mut ctx,
        &mut stop,
    );
    assert_eq!(core.registry.get(5).unwrap().times_invoked(), 1);
    core.process_event(
        Msg::InternalCreateWindow(5usize, RecordingBuilder::new()),
        &mut ctx,
        &mut stop,
    );
    // exactly one entry, backed by the second (never-invoked) handler
    assert_eq!(core.registry.len(), 1);
    assert_eq!(core.registry.get(5).unwrap().times_invoked(), 0);
}

#[test]
fn create_create_delete_scenario() {
    let mut chan: Chan = MessageChannel::new();
    let mut proxy = CustomEventLoopProxy::new();
    let mut core: Core = Rendering::new();
    let mut ctx = ();
    let mut stop = false;

    let first = proxy
        .create_window(&mut chan, RecordingBuilder::new())
        .unwrap();
    assert_eq!(first, 0);
    core.run(&mut chan, &mut ctx, &mut stop);
    assert_eq!(core.registry.len(), 1);

    let second = proxy
        .create_window(&mut chan, RecordingBuilder::new())
        .unwrap();
    assert_eq!(second, 1);
    core.run(&mut chan, &mut ctx, &mut stop);
    assert_eq!(core.registry.len(), 2);
    assert!(core.registry.contains(0));
    assert!(core.registry.contains(1));

    proxy.delete_window(&mut chan, 0).unwrap();
    core.run(&mut chan, &mut ctx, &mut stop);
    assert_eq!(core.registry.len(), 1);
    assert!(!core.registry.contains(0));
    assert!(core.registry.contains(1));
    // no broadcast was pending, so no handler ran and none could stop the loop
    assert!(!stop);
}

#[test]
fn closed_channel_reports_channel_closed() {
    let mut chan: Chan = MessageChannel::new();
    let mut proxy = CustomEventLoopProxy::new();
    let mut core: Core = Rendering::new();
    let mut ctx = ();
    let mut stop = false;
    core.process_event(
        Msg::InternalCreateWindow(7usize, RecordingBuilder::new()),
        &mut ctx,
        &mut stop,
    );

    chan.close();
    assert_eq!(proxy.delete_window(&mut chan, 7), Err(ChannelClosed));
    assert_eq!(proxy.update_prop(&mut chan, 3), Err(ChannelClosed));
    assert_eq!(proxy.send_event(&mut chan, 11u8), Err(ChannelClosed));
    assert_eq!(
        proxy.create_window(&mut chan, RecordingBuilder::new()),
        Err(ChannelClosed)
    );
    // the registry is unaffected, and the failed create consumed no id
    assert_eq!(core.registry.len(), 1);
    assert!(core.registry.contains(7));
    assert_eq!(proxy.next_id, 0);
}

#[test]
fn run_drains_pending_messages_in_order() {
    let mut chan: Chan = MessageChannel::new();
    let mut proxy = CustomEventLoopProxy::new();
    let mut core: Core = Rendering::new();
    let mut ctx = ();
    let mut stop = false;

    let id0 = proxy
        .create_window(&mut chan, RecordingBuilder::new())
        .unwrap();
    proxy.update_prop(&mut chan, 42).unwrap();
    let id1 = proxy
        .create_window(&mut chan, RecordingBuilder::new())
        .unwrap();
    proxy.send_event(&mut chan, 5u8).unwrap();
    assert_eq!(chan.pending(), 4);

    core.run(&mut chan, &mut ctx, &mut stop);
    assert_eq!(chan.pending(), 0);
    // the first window saw the update (before the second existed) and the payload
    assert_eq!(core.registry.get(id0).unwrap().times_invoked(), 2);
    assert_eq!(core.registry.get(id0).unwrap().last_update(), Some(42));
    // the second window only saw the payload broadcast after its creation
    assert_eq!(core.registry.get(id1).unwrap().times_invoked(), 1);
    assert_eq!(core.registry.get(id1).unwrap().last_update(), None);
    // recording handlers never request termination
    assert!(!stop);
}

#[test]
fn ids_keep_increasing_from_a_large_counter() {
    let mut chan: Chan = MessageChannel::new();
    let mut proxy = CustomEventLoopProxy::new();
    proxy.next_id = usize::MAX - 1;
    let id = proxy
        .create_window(&mut chan, RecordingBuilder::new())
        .unwrap();
    assert_eq!(id, usize::MAX - 1);
    assert_eq!(proxy.next_id, usize::MAX);
}

#[test]
fn channel_delivers_in_fifo_order() {
    let mut chan: Chan = MessageChannel::new();
    chan.send(Msg::InternalUpdateProps(1))
        .unwrap();
    chan.send(Msg::InternalDeleteWindow(2))
        .unwrap();
    chan.send(Msg::Other(3)).unwrap();
    assert!(matches!(
        chan.recv(),
        Some(Msg::InternalUpdateProps(1))
    ));
    assert!(matches!(
        chan.recv(),
        Some(Msg::InternalDeleteWindow(2))
    ));
    assert!(matches!(chan.recv(), Some(Msg::Other(3))));
    assert!(chan.recv().is_none());
}

#[test]
fn closed_channel_delivers_nothing() {
    let mut chan: Chan = MessageChannel::new();
    chan.send(Msg::InternalUpdateProps(1))
        .unwrap();
    chan.close();
    assert!(chan.is_closed());
    assert!(chan.recv().is_none());
    assert_eq!(chan.pending(), 0);
}
