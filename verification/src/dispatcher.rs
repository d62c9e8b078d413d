//! The dispatcher: the single thread that owns the platform event source.
//!
//! Worker threads and handles reach the dispatcher through a proxy channel
//! carrying [`EventLoopMessage`] values; the dispatcher serves each by a
//! registry operation and answers with a [`DispatchStep`] telling the
//! unverified adapter what outward action to take: create a platform window,
//! invoke the application callback and reply on the requester's one-shot
//! channel, or terminate the process with the appropriate status.

use vstd::prelude::*;

use crate::Message;
use crate::attributes::WindowAttributes;
use crate::event::Theme;
use crate::event::WindowEvent;
use crate::event::WindowId;
use crate::event::WindowMessage;
use crate::mailbox::try_send_model;
use crate::registry::Windows;

verus! {

/// The identity of one in-flight request's one-shot reply channel.
///
/// Every request posted to the dispatcher carries its own fresh channel;
/// the identifier stands for that channel, so a reply tagged with it can
/// reach no other requester.
#[derive(Clone, Copy, PartialEq, Eq, Structural, Debug)]
pub struct RequestId(pub u64);

/// A message arriving at the dispatcher over its proxy channel.
pub enum EventLoopMessage<A: Message> {
    /// A request to open a window with the given attributes, answered on the
    /// requester's one-shot channel.
    OpenWindow {
        /// The attributes to create the window with.
        attrs: WindowAttributes,
        /// The requester's reply channel.
        request: RequestId,
    },
    /// A worker finished normally; close its window.
    CloseWindow(WindowId),
    /// A worker's behavior panicked; close its window and distinguish the
    /// process exit status.
    WindowPanic(WindowId),
    /// An application-level message, answered on the requester's one-shot
    /// channel with the response the application callback computes.
    User {
        /// The application message.
        message: A,
        /// The requester's reply channel.
        request: RequestId,
    },
    /// Raise the shutdown-prevention guard counter.
    PreventShutdown,
    /// Lower the shutdown-prevention guard counter.
    AllowShutdown,
    /// An error to hand to the application's error handler.
    Error(A::Error),
    /// The system theme changed; tell every open window.
    ThemeChanged(Theme),
}

/// The outward action the dispatcher asks the adapter to take after one
/// proxy message.
pub enum DispatchStep<A: Message> {
    /// Nothing further.
    Continue,
    /// Terminate the process with this status: zero on a normal shutdown,
    /// nonzero when a window panic emptied the registry.
    Exit {
        /// The process exit status.
        code: i32,
    },
    /// Create a platform window with these attributes, then register it
    /// under the identifier the platform assigns and reply to the requester.
    CreateWindow {
        /// The attributes to create the window with.
        attrs: WindowAttributes,
        /// The requester's reply channel.
        request: RequestId,
    },
    /// Invoke the application callback with this message and reply with its
    /// response on the requester's one-shot channel.
    RespondToUser {
        /// The application message.
        message: A,
        /// The requester's reply channel.
        request: RequestId,
    },
    /// Hand this error to the application's error handler.
    HandleError(A::Error),
}

/// A window requested before the platform loop started: it is buffered and
/// flushed once the loop signals readiness.
pub struct PendingWindow {
    /// The attributes to create the window with.
    pub attrs: WindowAttributes,
    /// The requester's reply channel.
    pub request: RequestId,
}

/// The dispatcher's state once the platform loop runs.
pub struct RunningApp<A: Message> {
    /// The registry of open windows and the shutdown guard counter.
    pub windows: Windows<<A as Message>::Window>,
}

impl<A: Message> RunningApp<A> {
    /// A dispatcher with no windows and no guards.
    pub fn new() -> (r: RunningApp<A>)
        ensures
            r.windows.wf(),
            r.windows.windows() == Map::<
                u64,
                crate::mailbox::MailboxModel<<A as Message>::Window>,
            >::empty(),
            r.windows.guard_count() == 0,
            r.windows.closed_ids() == Set::<u64>::empty(),
    {
        RunningApp { windows: Windows::default() }
    }

    /// Flushes the windows buffered before the loop started: each becomes a
    /// create-window action, in the order requested.
    pub fn on_init(&mut self, pending: Vec<PendingWindow>) -> (r: Vec<DispatchStep<A>>)
        requires
            old(self).windows.wf(),
        ensures
            *final(self) == *old(self),
            r@.len() == pending@.len(),
            forall|k: int|
                0 <= k < pending@.len() ==> r@[k] == (DispatchStep::<A>::CreateWindow {
                    attrs: pending@[k].attrs,
                    request: pending@[k].request,
                }),
    {
        let ghost orig = pending@;
        let mut pending = pending;
        let mut steps: Vec<DispatchStep<A>> = Vec::new();
        proof {
            assert(pending@ =~= orig.skip(0));
        }
        while pending.len() > 0
            invariant
                steps@.len() + pending@.len() == orig.len(),
                pending@ =~= orig.skip(steps@.len() as int),
                forall|k: int|
                    0 <= k < steps@.len() ==> steps@[k] == (DispatchStep::<A>::CreateWindow {
                        attrs: orig[k].attrs,
                        request: orig[k].request,
                    }),
            decreases pending@.len(),
        {
            let ghost done = steps@.len() as int;
            let next = pending.remove(0);
            proof {
                broadcast use vstd::seq_lib::group_seq_properties;

                assert(next == orig[done]);
                assert(pending@ =~= orig.skip(done + 1));
            }
            steps.push(DispatchStep::CreateWindow { attrs: next.attrs, request: next.request });
        }
        steps
    }

    /// Serves one proxy message: performs the registry operation it calls
    /// for and returns the outward action.
    ///
    /// A normal close and a released guard exit with status zero exactly
    /// when the registry is empty and no guard is held; a window panic that
    /// empties the registry exits with a distinguished nonzero status. A
    /// user message is answered with exactly its own request's reply
    /// channel.
    pub fn user_event(&mut self, message: EventLoopMessage<A>) -> (r: DispatchStep<A>)
        requires
            old(self).windows.wf(),
            message is AllowShutdown ==> old(self).windows.guard_count() > 0,
            message is PreventShutdown ==> old(self).windows.guard_count() < usize::MAX,
        ensures
            final(self).windows.wf(),
            match message {
                EventLoopMessage::CloseWindow(id) => {
                    &&& final(self).windows.windows() == old(self).windows.windows().remove(id.0)
                    &&& final(self).windows.guard_count() == old(self).windows.guard_count()
                    &&& final(self).windows.closed_ids() == old(self).windows.closed_ids().insert(
                        id.0,
                    )
                    &&& r == if final(self).windows.shutdown_eligible() {
                        DispatchStep::<A>::Exit { code: 0 }
                    } else {
                        DispatchStep::<A>::Continue
                    }
                },
                EventLoopMessage::WindowPanic(id) => {
                    &&& final(self).windows.windows() == old(self).windows.windows().remove(id.0)
                    &&& final(self).windows.guard_count() == old(self).windows.guard_count()
                    &&& final(self).windows.closed_ids() == old(self).windows.closed_ids().insert(
                        id.0,
                    )
                    &&& r == if final(self).windows.shutdown_eligible() {
                        DispatchStep::<A>::Exit { code: 1 }
                    } else {
                        DispatchStep::<A>::Continue
                    }
                },
                EventLoopMessage::OpenWindow { attrs, request } => {
                    &&& *final(self) == *old(self)
                    &&& r == (DispatchStep::<A>::CreateWindow { attrs, request })
                },
                EventLoopMessage::User { message, request } => {
                    &&& *final(self) == *old(self)
                    &&& r == (DispatchStep::<A>::RespondToUser { message, request })
                },
                EventLoopMessage::PreventShutdown => {
                    &&& final(self).windows.windows() == old(self).windows.windows()
                    &&& final(self).windows.guard_count() == old(self).windows.guard_count() + 1
                    &&& final(self).windows.closed_ids() == old(self).windows.closed_ids()
                    &&& r is Continue
                },
                EventLoopMessage::AllowShutdown => {
                    &&& final(self).windows.windows() == old(self).windows.windows()
                    &&& final(self).windows.guard_count() == old(self).windows.guard_count() - 1
                    &&& final(self).windows.closed_ids() == old(self).windows.closed_ids()
                    &&& r == if final(self).windows.shutdown_eligible() {
                        DispatchStep::<A>::Exit { code: 0 }
                    } else {
                        DispatchStep::<A>::Continue
                    }
                },
                EventLoopMessage::Error(e) => {
                    &&& *final(self) == *old(self)
                    &&& r == DispatchStep::<A>::HandleError(e)
                },
                EventLoopMessage::ThemeChanged(theme) => {
                    &&& final(self).windows.guard_count() == old(self).windows.guard_count()
                    &&& final(self).windows.closed_ids() == old(self).windows.closed_ids()
                    &&& final(self).windows.windows().dom()
                        == old(self).windows.windows().dom()
                    &&& forall|id: u64|
                        #[trigger] old(self).windows.windows().dom().contains(id)
                            ==> final(self).windows.windows()[id] == try_send_model(
                            old(self).windows.windows()[id],
                            WindowMessage::Event(WindowEvent::ThemeChanged(theme)),
                        )
                    &&& r is Continue
                },
            },
    {
        match message {
            EventLoopMessage::CloseWindow(id) => {
                if self.windows.close(id) {
                    DispatchStep::Exit { code: 0 }
                } else {
                    DispatchStep::Continue
                }
            }
            EventLoopMessage::WindowPanic(id) => {
                if self.windows.close(id) {
                    DispatchStep::Exit { code: 1 }
                } else {
                    DispatchStep::Continue
                }
            }
            EventLoopMessage::OpenWindow { attrs, request } => DispatchStep::CreateWindow {
                attrs,
                request,
            },
            EventLoopMessage::User { message, request } => DispatchStep::RespondToUser {
                message,
                request,
            },
            EventLoopMessage::PreventShutdown => {
                self.windows.prevent_shutdown();
                DispatchStep::Continue
            }
            EventLoopMessage::AllowShutdown => {
                if self.windows.allow_shutdown() {
                    DispatchStep::Exit { code: 0 }
                } else {
                    DispatchStep::Continue
                }
            }
            EventLoopMessage::Error(e) => DispatchStep::HandleError(e),
            EventLoopMessage::ThemeChanged(theme) => {
                self.windows.theme_changed(theme);
                DispatchStep::Continue
            }
        }
    }
}

/// An application that is not yet running: requests to open windows arrive
/// before the platform loop has started, so they are buffered here and
/// flushed once the loop signals readiness.
pub struct PendingApp {
    pending: Vec<PendingWindow>,
}

impl PendingApp {
    /// The buffered open requests, in arrival order.
    pub closed spec fn pending_view(self) -> Seq<PendingWindow> {
        self.pending@
    }

    /// An app with no windows. If no windows are opened before the app is
    /// run, the app will immediately close.
    pub fn new() -> (r: PendingApp)
        ensures
            r.pending_view() == Seq::<PendingWindow>::empty(),
    {
        let r = PendingApp { pending: Vec::new() };
        proof {
            assert(r.pending_view() =~= Seq::<PendingWindow>::empty());
        }
        r
    }

    /// Buffers a request to open a window once the loop starts.
    pub fn open(&mut self, attrs: WindowAttributes, request: RequestId)
        ensures
            final(self).pending_view() == old(self).pending_view().push(
                PendingWindow { attrs, request },
            ),
    {
        self.pending.push(PendingWindow { attrs, request });
    }

    /// Begins running the application: hands over an empty dispatcher state
    /// and the buffered open requests for the adapter to flush through
    /// [`RunningApp::on_init`] once the loop is ready.
    pub fn run<A: Message>(self) -> (r: (RunningApp<A>, Vec<PendingWindow>))
        ensures
            r.0.windows.wf(),
            r.0.windows.windows() == Map::<
                u64,
                crate::mailbox::MailboxModel<<A as Message>::Window>,
            >::empty(),
            r.0.windows.guard_count() == 0,
            r.0.windows.closed_ids() == Set::<u64>::empty(),
            r.1@ == self.pending_view(),
    {
        (RunningApp::new(), self.pending)
    }
}

/// How one worker's run ended.
pub enum WorkerOutcome<E> {
    /// The worker ran and finished normally.
    Closed,
    /// The behavior failed to initialize; the window never became visible.
    InitFailed(E),
    /// A behavior callback panicked; the panic was caught at the worker
    /// boundary and will be re-raised after it is reported.
    Panicked,
}

/// The message a worker sends the dispatcher as it terminates: a normal
/// finish closes the window, an initialization failure is routed to the
/// application's error handler, and a panic is reported as a distinguished
/// window-panic signal — never as an ordinary close.
pub fn worker_termination_message<A: Message>(
    id: WindowId,
    outcome: WorkerOutcome<<A as Message>::Error>,
) -> (r: EventLoopMessage<A>)
    ensures
        match outcome {
            WorkerOutcome::Closed => r == EventLoopMessage::<A>::CloseWindow(id),
            WorkerOutcome::InitFailed(e) => r == EventLoopMessage::<A>::Error(e),
            WorkerOutcome::Panicked => r == EventLoopMessage::<A>::WindowPanic(id),
        },
{
    match outcome {
        WorkerOutcome::Closed => EventLoopMessage::CloseWindow(id),
        WorkerOutcome::InitFailed(e) => EventLoopMessage::Error(e),
        WorkerOutcome::Panicked => EventLoopMessage::WindowPanic(id),
    }
}

/// The (request, message) pairs the dispatcher hands to the application
/// callback when it serves `msgs` in order: exactly the user messages, in
/// arrival order, as [`RunningApp::user_event`] promises for each.
pub open spec fn user_requests<A: Message>(msgs: Seq<EventLoopMessage<A>>) -> Seq<(RequestId, A)>
    decreases msgs.len(),
{
    if msgs.len() == 0 {
        Seq::empty()
    } else {
        let rest = user_requests(msgs.drop_last());
        match msgs.last() {
            EventLoopMessage::User { message, request } => rest.push((request, message)),
            _ => rest,
        }
    }
}

/// No two in-flight user messages share a reply channel: every `send` makes
/// a fresh one-shot channel of its own.
pub open spec fn distinct_user_requests<A: Message>(msgs: Seq<EventLoopMessage<A>>) -> bool {
    forall|p: int, q: int|
        0 <= p < q < msgs.len() && (msgs[p] is User) && (msgs[q] is User)
            ==> msgs[p]->User_request != msgs[q]->User_request
}

/// Every pair the dispatcher hands to the application callback is an actual
/// user message from the served sequence: the response computed for it is
/// computed from that sender's own message.
pub proof fn lemma_callback_pairs_are_sent_messages<A: Message>(
    msgs: Seq<EventLoopMessage<A>>,
    k: int,
)
    requires
        0 <= k < user_requests(msgs).len(),
    ensures
        exists|i: int|
            0 <= i < msgs.len() && msgs[i] == (EventLoopMessage::User {
                message: user_requests(msgs)[k].1,
                request: user_requests(msgs)[k].0,
            }),
    decreases msgs.len(),
{
    let reqs = user_requests(msgs);
    let d = msgs.drop_last();
    let rest = user_requests(d);
    if msgs.last() is User && k == reqs.len() - 1 {
        assert(reqs[k] == (msgs.last()->User_request, msgs.last()->User_message));
        assert(msgs[msgs.len() - 1] == (EventLoopMessage::User {
            message: reqs[k].1,
            request: reqs[k].0,
        }));
    } else {
        assert(k < rest.len() && rest[k] == reqs[k]);
        lemma_callback_pairs_are_sent_messages(d, k);
        let i = choose|i: int|
            0 <= i < d.len() && d[i] == (EventLoopMessage::User {
                message: rest[k].1,
                request: rest[k].0,
            });
        assert(msgs[i] == (EventLoopMessage::User { message: reqs[k].1, request: reqs[k].0 }));
    }
}

/// With every request carrying its own reply channel, no two callback
/// invocations share one: the reply tagged with a request's channel is the
/// unique reply for it, so each concurrent `send` receives exactly the
/// response computed for its own message, whatever the interleaving of
/// arrivals.
pub proof fn lemma_send_response_pairing<A: Message>(
    msgs: Seq<EventLoopMessage<A>>,
    j: int,
    k: int,
)
    requires
        distinct_user_requests(msgs),
        0 <= j < k < user_requests(msgs).len(),
    ensures
        user_requests(msgs)[j].0 != user_requests(msgs)[k].0,
    decreases msgs.len(),
{
    let reqs = user_requests(msgs);
    let d = msgs.drop_last();
    let rest = user_requests(d);
    assert(distinct_user_requests(d)) by {
        assert forall|p: int, q: int|
            0 <= p < q < d.len() && (d[p] is User) && (d[q] is User) implies d[p]->User_request
            != d[q]->User_request by {
            assert(d[p] == msgs[p]);
            assert(d[q] == msgs[q]);
        }
    }
    if msgs.last() is User && k == reqs.len() - 1 {
        assert(j < rest.len() && rest[j] == reqs[j]);
        lemma_callback_pairs_are_sent_messages(d, j);
        let i = choose|i: int|
            0 <= i < d.len() && d[i] == (EventLoopMessage::User {
                message: rest[j].1,
                request: rest[j].0,
            });
        assert(msgs[i] == d[i]);
        assert(msgs[i]->User_request == reqs[j].0);
        assert(reqs[k].0 == msgs[msgs.len() - 1]->User_request);
        assert(msgs[i]->User_request != msgs[msgs.len() - 1]->User_request);
    } else {
        assert(rest[j] == reqs[j] && rest[k] == reqs[k]);
        lemma_send_response_pairing(d, j, k);
    }
}

} // verus!
