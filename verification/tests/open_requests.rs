use activation_bridge::delegate::AppDelegate;
use activation_bridge::open_request::EventQueue;
use activation_bridge::open_request::FileCandidate;
use activation_bridge::open_request::OutboundEvent;
use activation_bridge::open_request::filter_existing;
use activation_bridge::open_request::translate_open_files;
use activation_bridge::open_request::translate_open_urls;

fn candidate(path: &str, exists: bool) -> FileCandidate {
    FileCandidate { path: String::from(path), exists }
}

fn event_items(event: &OutboundEvent) -> Vec<String> {
    event.items().clone()
}

#[test]
fn files_keep_only_existing_paths() {
    let d = AppDelegate::new();
    let mut q = EventQueue::new();
    let items = vec![candidate("/exists/a", true), candidate("/missing/b", false)];
    assert!(d.handle_open_files(&items, &mut q));
    let events = q.into_events();
    assert_eq!(events.len(), 1);
    assert_eq!(event_items(&events[0]), vec![String::from("/exists/a")]);
    d.destroy();
}

#[test]
fn files_all_missing_fail_and_enqueue_nothing() {
    let d = AppDelegate::new();
    let mut q = EventQueue::new();
    let items = vec![candidate("/missing/only", false)];
    assert!(!d.handle_open_files(&items, &mut q));
    assert_eq!(q.len(), 0);
    assert_eq!(q.into_events().len(), 0);
    d.destroy();
}

#[test]
fn files_empty_batch_fails() {
    let d = AppDelegate::new();
    let mut q = EventQueue::new();
    let items: Vec<FileCandidate> = Vec::new();
    assert!(!d.handle_open_files(&items, &mut q));
    assert_eq!(q.len(), 0);
    d.destroy();
}

#[test]
fn files_preserve_input_order() {
    let d = AppDelegate::new();
    let mut q = EventQueue::new();
    let items = vec![candidate("/exists/a", true), candidate("/exists/b", true)];
    assert!(d.handle_open_files(&items, &mut q));
    let events = q.into_events();
    assert_eq!(events.len(), 1);
    assert_eq!(
        event_items(&events[0]),
        vec![String::from("/exists/a"), String::from("/exists/b")]
    );
    d.destroy();
}

#[test]
fn urls_empty_batch_still_enqueues_an_empty_event() {
    let d = AppDelegate::new();
    let mut q = EventQueue::new();
    d.handle_open_urls(Vec::new(), &mut q);
    let events = q.into_events();
    assert_eq!(events.len(), 1);
    assert_eq!(event_items(&events[0]), Vec::<String>::new());
    d.destroy();
}

#[test]
fn urls_are_never_filtered() {
    let d = AppDelegate::new();
    let mut q = EventQueue::new();
    let urls = vec![
        String::from("https://example.com/x"),
        String::from("file:///missing/only"),
    ];
    d.handle_open_urls(urls.clone(), &mut q);
    let events = q.into_events();
    assert_eq!(events.len(), 1);
    assert_eq!(event_items(&events[0]), urls);
    d.destroy();
}

#[test]
fn queue_preserves_the_order_of_events() {
    let d = AppDelegate::new();
    let mut q = EventQueue::new();
    d.handle_open_urls(vec![String::from("first")], &mut q);
    let items = vec![candidate("/exists/a", true)];
    assert!(d.handle_open_files(&items, &mut q));
    d.handle_open_urls(vec![String::from("last")], &mut q);
    let events = q.into_events();
    assert_eq!(events.len(), 3);
    assert_eq!(event_items(&events[0]), vec![String::from("first")]);
    assert_eq!(event_items(&events[1]), vec![String::from("/exists/a")]);
    assert_eq!(event_items(&events[2]), vec![String::from("last")]);
    d.destroy();
}

#[test]
fn translate_files_mixed_batch() {
    let items = vec![
        candidate("/missing/x", false),
        candidate("/exists/a", true),
        candidate("/missing/y", false),
        candidate("/exists/b", true),
    ];
    let (accepted, event) = translate_open_files(&items);
    assert!(accepted);
    let event = event.expect("an accepted request carries an event");
    assert_eq!(
        event_items(&event),
        vec![String::from("/exists/a"), String::from("/exists/b")]
    );
}

#[test]
fn translate_files_rejected_batch_has_no_event() {
    let items = vec![candidate("/missing/x", false), candidate("/missing/y", false)];
    let (accepted, event) = translate_open_files(&items);
    assert!(!accepted);
    assert!(event.is_none());
}

#[test]
fn translate_urls_passes_the_batch_through() {
    let urls = vec![String::from("a"), String::from("b")];
    let event = translate_open_urls(urls.clone());
    assert_eq!(event_items(&event), urls);
}

#[test]
fn filter_existing_keeps_order_and_drops_the_rest() {
    let items = vec![
        candidate("c", true),
        candidate("a", false),
        candidate("b", true),
    ];
    let kept = filter_existing(&items);
    assert_eq!(kept, vec![String::from("c"), String::from("b")]);
}
