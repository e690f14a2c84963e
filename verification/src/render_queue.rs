use vstd::prelude::*;
use crate::geometry::Size2Di;

verus! {

/// A message to the render thread: stop, or render the image data at a size.
pub enum RenderThreadMsg<B> {
    Quit,
    Render(B, Size2Di),
}

/// What the render thread's receiver reported.
pub enum Received<B> {
    /// A message arrived (from a blocking or a non-blocking receive).
    Msg(RenderThreadMsg<B>),
    /// A non-blocking receive found no message.
    Empty,
    /// A non-blocking receive found every sender gone.
    Disconnected,
}

/// What the render thread does next.
pub enum QueueAction<B> {
    /// Receive again.
    Continue,
    /// Render this request, then receive again.
    Render(B, Size2Di),
    /// Leave the thread's loop.
    Stop,
}

/// Abstract state of the render thread's loop.
pub struct QueueModel<B> {
    pub pending: Seq<(B, Size2Di)>,
    pub polling: bool,
    pub stopped: bool,
}

/// The render thread's loop state: requests received since the last
/// render, whether it has moved on from its first blocking receive to
/// non-blocking polling, and whether it has stopped.
pub struct RenderQueue<B> {
    push_back_buf: Vec<(B, Size2Di)>,
    polling: bool,
    stopped: bool,
}

impl<B> View for RenderQueue<B> {
    type V = QueueModel<B>;

    closed spec fn view(&self) -> QueueModel<B> {
        QueueModel { pending: self.push_back_buf@, polling: self.polling, stopped: self.stopped }
    }
}

/// One step of the render loop. A render request is queued; when polling
/// finds no message, only the newest queued request is rendered and the
/// older ones are dropped; `Quit`, or all senders gone while polling, stop
/// the loop and drop what is queued.
pub open spec fn queue_step_spec<B>(m: QueueModel<B>, ev: Received<B>) -> (QueueAction<B>, QueueModel<B>) {
    match ev {
        Received::Msg(RenderThreadMsg::Quit) => (
            QueueAction::Stop,
            QueueModel { pending: Seq::empty(), stopped: true, ..m },
        ),
        Received::Msg(RenderThreadMsg::Render(b, s)) => (
            QueueAction::Continue,
            QueueModel { pending: m.pending.push((b, s)), polling: true, ..m },
        ),
        Received::Empty => (
            if m.pending.len() > 0 {
                QueueAction::Render(m.pending.last().0, m.pending.last().1)
            } else {
                QueueAction::Continue
            },
            QueueModel { pending: Seq::empty(), ..m },
        ),
        Received::Disconnected => (
            QueueAction::Stop,
            QueueModel { pending: Seq::empty(), stopped: true, ..m },
        ),
    }
}

/// Which receive the loop can be handed: while it has not started polling
/// it waits with a blocking receive, which yields only messages.
pub open spec fn event_allowed<B>(m: QueueModel<B>, ev: Received<B>) -> bool {
    !m.stopped && (!m.polling ==> ev is Msg)
}

impl<B> RenderQueue<B> {
    /// A loop that waits for its first message.
    pub fn new() -> (q: Self)
        ensures
            q@.pending == Seq::<(B, Size2Di)>::empty(),
            !q@.polling,
            !q@.stopped,
    {
        RenderQueue { push_back_buf: Vec::new(), polling: false, stopped: false }
    }

    /// Whether the next receive is non-blocking.
    pub fn is_polling(&self) -> (b: bool)
        ensures
            b == self@.polling,
    {
        self.polling
    }

    pub fn is_stopped(&self) -> (b: bool)
        ensures
            b == self@.stopped,
    {
        self.stopped
    }

    /// Takes what the receiver reported and says what to do.
    pub fn step(&mut self, ev: Received<B>) -> (a: QueueAction<B>)
        requires
            event_allowed(old(self)@, ev),
        ensures
            (a, final(self)@) == queue_step_spec(old(self)@, ev),
    {
        match ev {
            Received::Msg(RenderThreadMsg::Quit) => {
                self.push_back_buf.clear();
                self.stopped = true;
                QueueAction::Stop
            },
            Received::Msg(RenderThreadMsg::Render(b, s)) => {
                self.push_back_buf.push((b, s));
                self.polling = true;
                QueueAction::Continue
            },
            Received::Empty => {
                let last = self.push_back_buf.pop();
                self.push_back_buf.clear();
                match last {
                    Some((b, s)) => QueueAction::Render(b, s),
                    None => QueueAction::Continue,
                }
            },
            Received::Disconnected => {
                self.push_back_buf.clear();
                self.stopped = true;
                QueueAction::Stop
            },
        }
    }
}

/// The state after a run of render requests, in order.
pub open spec fn feed_requests<B>(m: QueueModel<B>, reqs: Seq<(B, Size2Di)>) -> QueueModel<B>
    decreases reqs.len(),
{
    if reqs.len() == 0 {
        m
    } else {
        queue_step_spec(
            feed_requests(m, reqs.drop_last()),
            Received::Msg(RenderThreadMsg::Render(reqs.last().0, reqs.last().1)),
        ).1
    }
}

proof fn lemma_feed_appends<B>(m: QueueModel<B>, reqs: Seq<(B, Size2Di)>)
    ensures
        feed_requests(m, reqs).pending == m.pending + reqs,
        feed_requests(m, reqs).stopped == m.stopped,
        reqs.len() > 0 ==> feed_requests(m, reqs).polling,
        reqs.len() == 0 ==> feed_requests(m, reqs).polling == m.polling,
    decreases reqs.len(),
{
    if reqs.len() > 0 {
        lemma_feed_appends(m, reqs.drop_last());
        assert(m.pending + reqs.drop_last() + seq![reqs.last()] =~= m.pending + reqs);
    } else {
        assert(m.pending + reqs =~= m.pending);
    }
}

/// However many render requests arrive before the loop next finds its
/// queue empty, exactly the newest one is rendered and nothing stays queued.
pub proof fn lemma_newest_request_wins<B>(m: QueueModel<B>, reqs: Seq<(B, Size2Di)>)
    requires
        reqs.len() > 0,
    ensures
        ({
            let (a, m2) = queue_step_spec(feed_requests(m, reqs), Received::Empty);
            &&& a == QueueAction::Render(reqs.last().0, reqs.last().1)
            &&& m2.pending.len() == 0
            &&& m2.polling
        }),
{
    lemma_feed_appends(m, reqs);
    let f = feed_requests(m, reqs);
    assert(f.pending.last() == reqs.last());
}

/// `Quit` stops the loop whatever is queued, and drops it.
pub proof fn lemma_quit_stops<B>(m: QueueModel<B>)
    ensures
        queue_step_spec(m, Received::Msg(RenderThreadMsg::Quit)).0 == QueueAction::<B>::Stop,
        queue_step_spec(m, Received::Msg(RenderThreadMsg::Quit)).1.stopped,
        queue_step_spec(m, Received::Msg(RenderThreadMsg::Quit)).1.pending.len() == 0,
{
}

} // verus!
