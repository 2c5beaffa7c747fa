use clipboard_watcher::Action;
use clipboard_watcher::BackendError;
use clipboard_watcher::ChangeLoop;
use clipboard_watcher::ClipEntry;
use clipboard_watcher::ClipboardKind;
use clipboard_watcher::ClipboardWatcher;
use clipboard_watcher::ClipboardWatcherOptions;
use clipboard_watcher::ClipboardWatcherState;
use clipboard_watcher::Error;
use clipboard_watcher::CLIP_CHANNEL_CAPACITY;
use tokio::sync::broadcast::error::TryRecvError;

/// Options that watch both kinds and ask for no first snapshot.
fn quiet() -> ClipboardWatcherOptions {
    ClipboardWatcherOptions { load_current: false, ..ClipboardWatcherOptions::default() }
}

/// A watcher whose loop waits for its first notification.
fn running(opts: ClipboardWatcherOptions) -> (ClipboardWatcher, ChangeLoop) {
    assert!(!opts.load_current);
    let (watcher, mut worker) = ClipboardWatcher::new(Ok(()), opts).unwrap();
    assert_eq!(worker.options(), opts);
    assert_eq!(worker.start(), Action::Wait);
    (watcher, worker)
}

/// Hands the loop a notification for `kind` that resolves to `bytes`.
fn publish(worker: &mut ChangeLoop, kind: ClipboardKind, bytes: Vec<u8>) -> Action {
    assert_eq!(worker.on_notification(Some(kind)), Action::Load(kind));
    worker.on_loaded(Ok(bytes))
}

#[test]
fn default_options_watch_both_kinds_and_take_a_first_snapshot() {
    let opts = ClipboardWatcherOptions::default();
    assert!(opts.load_current);
    assert!(opts.enable_clipboard);
    assert!(opts.enable_primary);
    assert_eq!(opts.filter_min_size, 1);
}

#[test]
fn watch_set_follows_the_enable_flags() {
    let both = ClipboardWatcherOptions::default();
    assert_eq!(both.enabled_kinds(), vec![ClipboardKind::Clipboard, ClipboardKind::Primary]);
    assert!(!both.watches_nothing());

    let clipboard = ClipboardWatcherOptions { enable_primary: false, ..both };
    assert_eq!(clipboard.enabled_kinds(), vec![ClipboardKind::Clipboard]);
    assert!(!clipboard.watches_nothing());

    let primary = ClipboardWatcherOptions { enable_clipboard: false, ..both };
    assert_eq!(primary.enabled_kinds(), vec![ClipboardKind::Primary]);
    assert!(!primary.watches_nothing());

    let neither = ClipboardWatcherOptions { enable_clipboard: false, enable_primary: false, ..both };
    assert_eq!(neither.enabled_kinds(), Vec::<ClipboardKind>::new());
    assert!(neither.watches_nothing());
}

#[test]
fn options_accept_content_longer_than_the_filter() {
    let opts = ClipboardWatcherOptions { filter_min_size: 2, ..ClipboardWatcherOptions::default() };
    assert!(!opts.accepts(&Vec::new()));
    assert!(!opts.accepts(&vec![1]));
    assert!(!opts.accepts(&vec![1, 2]));
    assert!(opts.accepts(&vec![1, 2, 3]));
}

#[test]
fn new_watcher_is_enabled() {
    let (watcher, _worker) = running(quiet());
    assert!(watcher.is_watching());
    assert_eq!(watcher.state(), ClipboardWatcherState::Enabled);
}

#[test]
fn failed_subscription_makes_no_watcher() {
    let failure = BackendError::Failure { message: String::from("no display") };
    let made = ClipboardWatcher::new(Err(failure.clone()), ClipboardWatcherOptions::default());
    match made {
        Ok(_) => panic!("a watcher was made without a subscription"),
        Err(error) => assert_eq!(error, Error::Backend { error: failure }),
    }

    let made = ClipboardWatcher::new(Err(BackendError::EmptyClipboard), quiet());
    match made {
        Ok(_) => panic!("a watcher was made without a subscription"),
        Err(error) => assert_eq!(error, Error::Backend { error: BackendError::EmptyClipboard }),
    }
}

#[test]
fn disable_and_enable_move_the_switch() {
    let (mut watcher, _worker) = running(quiet());

    watcher.disable();
    assert!(!watcher.is_watching());
    assert_eq!(watcher.state(), ClipboardWatcherState::Disabled);

    watcher.enable();
    assert!(watcher.is_watching());
    assert_eq!(watcher.state(), ClipboardWatcherState::Enabled);
}

#[test]
fn enable_and_disable_are_idempotent() {
    let (mut watcher, mut worker) = running(quiet());

    watcher.enable();
    watcher.enable();
    assert!(watcher.is_watching());
    assert_eq!(
        worker.on_notification(Some(ClipboardKind::Primary)),
        Action::Load(ClipboardKind::Primary)
    );
    assert_eq!(worker.on_loaded(Err(BackendError::EmptyClipboard)), Action::Wait);

    watcher.disable();
    watcher.disable();
    assert!(!watcher.is_watching());
    assert_eq!(watcher.state(), ClipboardWatcherState::Disabled);
    assert_eq!(worker.on_notification(Some(ClipboardKind::Primary)), Action::Wait);
}

#[test]
fn toggle_flips_the_switch() {
    let (mut watcher, mut worker) = running(quiet());

    watcher.toggle();
    assert!(!watcher.is_watching());
    assert_eq!(watcher.state(), ClipboardWatcherState::Disabled);
    assert_eq!(worker.on_notification(Some(ClipboardKind::Clipboard)), Action::Wait);

    watcher.toggle();
    assert!(watcher.is_watching());
    assert_eq!(watcher.state(), ClipboardWatcherState::Enabled);
    assert_eq!(
        worker.on_notification(Some(ClipboardKind::Clipboard)),
        Action::Load(ClipboardKind::Clipboard)
    );
}

#[test]
fn every_receiver_gets_every_clip() {
    let (watcher, mut worker) = running(quiet());
    let mut first = watcher.subscribe();
    let mut second = watcher.subscribe();

    assert_eq!(publish(&mut worker, ClipboardKind::Clipboard, b"alpha".to_vec()), Action::Wait);
    assert_eq!(publish(&mut worker, ClipboardKind::Primary, b"beta".to_vec()), Action::Wait);

    for receiver in [&mut first, &mut second] {
        let alpha = receiver.try_recv().unwrap();
        assert_eq!(alpha.kind(), ClipboardKind::Clipboard);
        assert_eq!(alpha.content(), &b"alpha".to_vec());
        let beta = receiver.try_recv().unwrap();
        assert_eq!(beta.kind(), ClipboardKind::Primary);
        assert_eq!(beta.content(), &b"beta".to_vec());
        assert_eq!(receiver.try_recv(), Err(TryRecvError::Empty));
    }
}

#[test]
fn late_receiver_misses_what_was_published_before() {
    let (watcher, mut worker) = running(quiet());
    let mut early = watcher.subscribe();
    assert_eq!(publish(&mut worker, ClipboardKind::Clipboard, b"before".to_vec()), Action::Wait);

    let mut late = watcher.subscribe();
    assert_eq!(late.try_recv(), Err(TryRecvError::Empty));
    assert_eq!(publish(&mut worker, ClipboardKind::Clipboard, b"after".to_vec()), Action::Wait);

    assert_eq!(
        early.try_recv(),
        Ok(ClipEntry::from_clipboard_content(b"before".to_vec(), ClipboardKind::Clipboard))
    );
    assert_eq!(
        early.try_recv(),
        Ok(ClipEntry::from_clipboard_content(b"after".to_vec(), ClipboardKind::Clipboard))
    );
    assert_eq!(
        late.try_recv(),
        Ok(ClipEntry::from_clipboard_content(b"after".to_vec(), ClipboardKind::Clipboard))
    );
    assert_eq!(late.try_recv(), Err(TryRecvError::Empty));
}

#[test]
fn receiver_that_left_does_not_hold_up_the_others() {
    let (watcher, mut worker) = running(quiet());
    let gone = watcher.subscribe();
    let mut stays = watcher.subscribe();
    drop(gone);

    assert_eq!(publish(&mut worker, ClipboardKind::Clipboard, b"still here".to_vec()), Action::Wait);
    assert_eq!(stays.try_recv().unwrap().into_content(), b"still here".to_vec());
}

#[test]
fn receiver_that_falls_behind_misses_the_oldest_clips() {
    assert_eq!(CLIP_CHANNEL_CAPACITY, 16);
    let (watcher, mut worker) = running(quiet());
    let mut slow = watcher.subscribe();

    let sent = CLIP_CHANNEL_CAPACITY + 3;
    for i in 0..sent {
        let bytes = vec![b'x'; i + 2];
        assert_eq!(publish(&mut worker, ClipboardKind::Clipboard, bytes), Action::Wait);
    }

    assert_eq!(slow.try_recv(), Err(TryRecvError::Lagged(3)));
    for i in 3..sent {
        assert_eq!(slow.try_recv().unwrap().len(), i + 2);
    }
    assert_eq!(slow.try_recv(), Err(TryRecvError::Empty));
}

#[test]
fn loop_outlives_its_handle() {
    let (watcher, mut worker) = running(quiet());
    let mut receiver = watcher.subscribe();
    drop(watcher);

    assert_eq!(publish(&mut worker, ClipboardKind::Clipboard, b"orphan".to_vec()), Action::Wait);
    assert_eq!(receiver.try_recv().unwrap().content(), &b"orphan".to_vec());
}

#[test]
fn receivers_of_one_watcher_share_its_channel() {
    let (watcher, mut worker) = running(quiet());
    let first = watcher.subscribe();
    let mut second = watcher.subscribe();
    assert!(first.same_channel(&second));

    let (other, _other_worker) = running(quiet());
    let mut stranger = other.subscribe();
    assert!(!first.same_channel(&stranger));

    assert_eq!(publish(&mut worker, ClipboardKind::Primary, b"ours".to_vec()), Action::Wait);
    assert_eq!(second.try_recv().unwrap().content(), &b"ours".to_vec());
    assert_eq!(stranger.try_recv(), Err(TryRecvError::Empty));
}

#[test]
fn channel_keeps_sixteen_clips_and_no_more() {
    let (watcher, mut worker) = running(quiet());
    let mut receiver = watcher.subscribe();

    for i in 0..CLIP_CHANNEL_CAPACITY {
        let bytes = vec![b'y'; i + 2];
        assert_eq!(publish(&mut worker, ClipboardKind::Clipboard, bytes), Action::Wait);
    }
    assert_eq!(receiver.len(), 16);
    assert_eq!(receiver.try_recv().unwrap().len(), 2);

    let mut late = watcher.subscribe();
    for i in 0..CLIP_CHANNEL_CAPACITY + 1 {
        let bytes = vec![b'z'; i + 2];
        assert_eq!(publish(&mut worker, ClipboardKind::Clipboard, bytes), Action::Wait);
    }
    assert_eq!(late.try_recv(), Err(TryRecvError::Lagged(1)));
}
