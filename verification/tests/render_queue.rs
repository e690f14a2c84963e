use aki_image_view_gtk::geometry::Size2Di;
use aki_image_view_gtk::render_queue::{QueueAction, Received, RenderQueue, RenderThreadMsg};

fn render(q: &mut RenderQueue<u32>, b: u32, w: i32) -> QueueAction<u32> {
    q.step(Received::Msg(RenderThreadMsg::Render(b, Size2Di::new(w, w))))
}

#[test]
fn starts_blocking() {
    let q: RenderQueue<u32> = RenderQueue::new();
    assert!(!q.is_polling());
    assert!(!q.is_stopped());
}

#[test]
fn newest_request_is_rendered() {
    let mut q = RenderQueue::new();
    assert!(matches!(render(&mut q, 1, 10), QueueAction::Continue));
    assert!(q.is_polling());
    assert!(matches!(render(&mut q, 2, 20), QueueAction::Continue));
    assert!(matches!(render(&mut q, 3, 30), QueueAction::Continue));
    match q.step(Received::Empty) {
        QueueAction::Render(b, s) => {
            assert_eq!(b, 3);
            assert_eq!(s, Size2Di::new(30, 30));
        }
        _ => panic!("expected a render"),
    }
    // the older requests were dropped
    assert!(matches!(q.step(Received::Empty), QueueAction::Continue));
}

#[test]
fn quit_stops_and_drops_requests() {
    let mut q = RenderQueue::new();
    render(&mut q, 1, 10);
    assert!(matches!(q.step(Received::Msg(RenderThreadMsg::Quit)), QueueAction::Stop));
    assert!(q.is_stopped());
}

#[test]
fn quit_as_first_message() {
    let mut q: RenderQueue<u32> = RenderQueue::new();
    assert!(matches!(q.step(Received::Msg(RenderThreadMsg::Quit)), QueueAction::Stop));
}

#[test]
fn disconnect_while_polling_stops() {
    let mut q = RenderQueue::new();
    render(&mut q, 1, 10);
    assert!(matches!(q.step(Received::Disconnected), QueueAction::Stop));
    assert!(q.is_stopped());
}
