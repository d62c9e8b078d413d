//! The process-wide registry of open windows.
//!
//! The registry maps each platform window identifier to the mailbox of the
//! worker owning that window, and tracks the shutdown-prevention guard
//! counter. Removal of an entry is the single authoritative "this window no
//! longer exists" signal, and the application is eligible to terminate
//! exactly when the registry is empty of windows and the guard counter is
//! zero.
//!
//! The unverified adapter shares one registry behind a short-held lock; every
//! mutation is computed here.

use vstd::prelude::*;

use crate::event::Theme;
use crate::event::WindowEvent;
use crate::event::WindowId;
use crate::event::WindowMessage;
use crate::mailbox::Mailbox;
use crate::mailbox::MailboxModel;
use crate::mailbox::SendStatus;
use crate::mailbox::try_send_model;
use crate::mailbox::try_send_status;

verus! {

/// One registry entry: a window's identifier and the mailbox of the worker
/// owning it.
pub struct OpenWindow<T> {
    /// The platform identifier of the window.
    pub id: WindowId,
    /// The mailbox of the worker owning the window.
    pub mailbox: Mailbox<T>,
}

/// The map from window identifier to mailbox model that a sequence of
/// registry entries denotes.
pub open spec fn window_map_of<T>(s: Seq<OpenWindow<T>>) -> Map<u64, MailboxModel<T>>
    decreases s.len(),
{
    if s.len() == 0 {
        Map::empty()
    } else {
        window_map_of(s.drop_last()).insert(s.last().id.0, s.last().mailbox.model())
    }
}

/// No two entries share an identifier.
pub open spec fn distinct_ids<T>(s: Seq<OpenWindow<T>>) -> bool {
    forall|i: int, j: int| 0 <= i < j < s.len() ==> s[i].id.0 != s[j].id.0
}

/// An identifier is in the denoted map exactly when some entry carries it.
proof fn lemma_window_map_dom<T>(s: Seq<OpenWindow<T>>)
    ensures
        forall|id: u64|
            #[trigger] window_map_of(s).dom().contains(id) <==> exists|i: int|
                0 <= i < s.len() && s[i].id.0 == id,
    decreases s.len(),
{
    if s.len() > 0 {
        let d = s.drop_last();
        lemma_window_map_dom(d);
        assert(window_map_of(s) == window_map_of(d).insert(s.last().id.0, s.last().mailbox.model()));
        assert forall|id: u64| #[trigger] window_map_of(s).dom().contains(id) implies exists|i: int|
            0 <= i < s.len() && s[i].id.0 == id by {
            if id == s.last().id.0 {
                assert(s[s.len() - 1].id.0 == id);
            } else {
                assert(window_map_of(d).dom().contains(id));
                let i = choose|i: int| 0 <= i < d.len() && d[i].id.0 == id;
                assert(d[i] == s[i]);
                assert(s[i].id.0 == id);
            }
        }
        assert forall|id: u64|
            (exists|i: int| 0 <= i < s.len() && s[i].id.0 == id) implies #[trigger] window_map_of(
            s,
        ).dom().contains(id) by {
            let i = choose|i: int| 0 <= i < s.len() && s[i].id.0 == id;
            if i == s.len() - 1 {
                assert(window_map_of(s).dom().contains(s.last().id.0));
            } else {
                assert(d[i] == s[i]);
                assert(exists|j: int| 0 <= j < d.len() && d[j].id.0 == id);
                assert(window_map_of(d).dom().contains(id));
            }
        }
    }
}

/// With distinct identifiers, the denoted map sends each entry's identifier
/// to that entry's mailbox model.
proof fn lemma_window_map_index<T>(s: Seq<OpenWindow<T>>, i: int)
    requires
        distinct_ids(s),
        0 <= i < s.len(),
    ensures
        window_map_of(s).dom().contains(s[i].id.0),
        window_map_of(s)[s[i].id.0] == s[i].mailbox.model(),
    decreases s.len(),
{
    lemma_window_map_dom(s);
    if i == s.len() - 1 {
    } else {
        assert(distinct_ids(s.drop_last()));
        assert(s.drop_last()[i] == s[i]);
        lemma_window_map_index(s.drop_last(), i);
        assert(s[i].id.0 != s.last().id.0);
    }
}

/// Replacing the entry at `i` with one carrying the same identifier turns
/// the denoted map into an insert at that identifier.
proof fn lemma_window_map_update<T>(s: Seq<OpenWindow<T>>, i: int, w: OpenWindow<T>)
    requires
        distinct_ids(s),
        0 <= i < s.len(),
        w.id == s[i].id,
    ensures
        window_map_of(s.update(i, w)) =~= window_map_of(s).insert(w.id.0, w.mailbox.model()),
    decreases s.len(),
{
    let u = s.update(i, w);
    if i == s.len() - 1 {
        assert(u.drop_last() =~= s.drop_last());
        assert(u.last() == w);
    } else {
        assert(u.drop_last() =~= s.drop_last().update(i, w));
        assert(u.last() == s.last());
        assert(distinct_ids(s.drop_last()));
        assert(s.drop_last()[i] == s[i]);
        lemma_window_map_update(s.drop_last(), i, w);
        assert(s[i].id.0 != s.last().id.0);
        assert(window_map_of(u) =~= window_map_of(s.drop_last()).insert(
            w.id.0,
            w.mailbox.model(),
        ).insert(s.last().id.0, s.last().mailbox.model()));
    }
}

/// Removing the entry at `i` removes exactly that entry's identifier from
/// the denoted map.
proof fn lemma_window_map_remove<T>(s: Seq<OpenWindow<T>>, i: int)
    requires
        distinct_ids(s),
        0 <= i < s.len(),
    ensures
        window_map_of(s.remove(i)) =~= window_map_of(s).remove(s[i].id.0),
    decreases s.len(),
{
    let r = s.remove(i);
    s.remove_ensures(i);
    lemma_window_map_dom(s.drop_last());
    if i == s.len() - 1 {
        assert(r =~= s.drop_last());
        assert(!window_map_of(s.drop_last()).dom().contains(s[i].id.0));
        assert(window_map_of(s.drop_last()).remove(s[i].id.0) =~= window_map_of(s.drop_last()));
    } else {
        s.drop_last().remove_ensures(i);
        assert(r.len() == s.len() - 1);
        assert(r.last() == s.last());
        assert(r.drop_last() =~= s.drop_last().remove(i));
        assert(distinct_ids(s.drop_last()));
        assert(s.drop_last()[i] == s[i]);
        lemma_window_map_remove(s.drop_last(), i);
        assert(window_map_of(r) =~= window_map_of(s.drop_last()).remove(s[i].id.0).insert(
            s.last().id.0,
            s.last().mailbox.model(),
        ));
        assert(s[i].id.0 != s.last().id.0);
    }
}

/// What became of a send routed through the registry.
#[derive(Clone, Copy, PartialEq, Eq, Structural, Debug)]
pub enum SendOutcome {
    /// The message was enqueued in the window's mailbox.
    Delivered,
    /// The mailbox was full; the message was discarded and logged by the
    /// caller, never surfaced as an error.
    Dropped,
    /// No window with that identifier is registered.
    NotFound,
    /// The worker was gone; the entry was removed as lazy cleanup.
    Disconnected,
}

/// A collection of open windows.
///
/// Also tracks the shutdown-prevention guard counter, and — as a ghost set —
/// every identifier that was ever removed, so that the registry can state
/// that a removed identifier never comes back.
pub struct Windows<T> {
    open: Vec<OpenWindow<T>>,
    guards: usize,
    closed: Ghost<Set<u64>>,
}

impl<T> Windows<T> {
    /// The map from open window identifier to that window's mailbox model.
    pub closed spec fn windows(self) -> Map<u64, MailboxModel<T>> {
        window_map_of(self.open@)
    }

    /// The number of shutdown guards currently held.
    pub closed spec fn guard_count(self) -> nat {
        self.guards as nat
    }

    /// Every identifier that was ever removed from the registry.
    pub closed spec fn closed_ids(self) -> Set<u64> {
        self.closed@
    }

    /// Identifiers are distinct, mailboxes are well formed, and no open
    /// window carries an identifier that was ever removed.
    pub closed spec fn wf(self) -> bool {
        &&& distinct_ids(self.open@)
        &&& forall|i: int| 0 <= i < self.open@.len() ==> (#[trigger] self.open@[i]).mailbox.wf()
        &&& forall|i: int|
            0 <= i < self.open@.len() ==> !self.closed@.contains(
                (#[trigger] self.open@[i]).id.0,
            )
    }

    /// The application is eligible to terminate: no windows remain open and
    /// no shutdown guard is held.
    pub open spec fn shutdown_eligible(self) -> bool {
        self.windows().dom() == Set::<u64>::empty() && self.guard_count() == 0
    }

    /// The index of the entry carrying `id`, if one does.
    fn find(&self, id: WindowId) -> (r: Option<usize>)
        ensures
            match r {
                Some(i) => i < self.open@.len() && self.open@[i as int].id == id,
                None => forall|i: int| 0 <= i < self.open@.len() ==> self.open@[i].id != id,
            },
    {
        let mut i: usize = 0;
        while i < self.open.len()
            invariant
                i <= self.open@.len(),
                forall|j: int| 0 <= j < i ==> self.open@[j].id != id,
            decreases self.open@.len() - i,
        {
            if self.open[i].id.0 == id.0 {
                return Some(i);
            }
            i = i + 1;
        }
        None
    }

    /// Gets the entry for the given window id, if it has been opened and is
    /// still open.
    pub fn get(&self, id: WindowId) -> (r: Option<&OpenWindow<T>>)
        requires
            self.wf(),
        ensures
            match r {
                Some(w) => {
                    &&& self.windows().dom().contains(id.0)
                    &&& w.id == id
                    &&& w.mailbox.model() == self.windows()[id.0]
                },
                None => !self.windows().dom().contains(id.0),
            },
    {
        proof {
            lemma_window_map_dom(self.open@);
        }
        match self.find(id) {
            Some(i) => {
                proof {
                    lemma_window_map_index(self.open@, i as int);
                }
                Some(&self.open[i])
            }
            None => None,
        }
    }

    /// Registers a freshly created window under the identifier the platform
    /// assigned to it, with the mailbox its worker will consume.
    ///
    /// The platform guarantees the identifier is not carried by any open
    /// window and is not reused while a closed window still awaits
    /// collection; hence the identifier is new to the registry.
    pub fn open(&mut self, id: WindowId, mailbox: Mailbox<T>)
        requires
            old(self).wf(),
            mailbox.wf(),
            !old(self).windows().dom().contains(id.0),
            !old(self).closed_ids().contains(id.0),
        ensures
            final(self).wf(),
            final(self).windows() == old(self).windows().insert(id.0, mailbox.model()),
            final(self).guard_count() == old(self).guard_count(),
            final(self).closed_ids() == old(self).closed_ids(),
    {
        proof {
            lemma_window_map_dom(self.open@);
        }
        self.open.push(OpenWindow { id, mailbox });
        proof {
            assert(self.open@.drop_last() =~= old(self).open@);
            assert(self.windows() =~= old(self).windows().insert(id.0, mailbox.model()));
        }
    }

    /// Sends `message` to the window carrying `window`, without ever
    /// blocking: an unknown identifier is ignored, a full mailbox drops the
    /// message, and a mailbox whose worker is gone has its entry removed as
    /// lazy cleanup.
    pub fn send(&mut self, window: WindowId, message: WindowMessage<T>) -> (r: SendOutcome)
        requires
            old(self).wf(),
        ensures
            final(self).wf(),
            final(self).guard_count() == old(self).guard_count(),
            !old(self).windows().dom().contains(window.0) ==> r == SendOutcome::NotFound
                && *final(self) == *old(self),
            old(self).windows().dom().contains(window.0) ==> ({
                let m = old(self).windows()[window.0];
                if !m.connected {
                    &&& r == SendOutcome::Disconnected
                    &&& final(self).windows() == old(self).windows().remove(window.0)
                    &&& final(self).closed_ids() == old(self).closed_ids().insert(window.0)
                } else {
                    &&& r == (if try_send_status(m) == SendStatus::Sent {
                        SendOutcome::Delivered
                    } else {
                        SendOutcome::Dropped
                    })
                    &&& final(self).windows() == old(self).windows().insert(
                        window.0,
                        try_send_model(m, message),
                    )
                    &&& final(self).closed_ids() == old(self).closed_ids()
                }
            }),
    {
        proof {
            lemma_window_map_dom(self.open@);
        }
        match self.find(window) {
            None => SendOutcome::NotFound,
            Some(i) => {
                proof {
                    lemma_window_map_index(self.open@, i as int);
                }
                let status = self.open[i].mailbox.try_send(message);
                proof {
                    lemma_window_map_update(
                        old(self).open@,
                        i as int,
                        self.open@[i as int],
                    );
                }
                match status {
                    SendStatus::Sent => SendOutcome::Delivered,
                    SendStatus::Full => SendOutcome::Dropped,
                    SendStatus::Disconnected => {
                        let removed = self.open.remove(i);
                        proof {
                            let ghost prior = old(self).open@;
                            assert(self.open@ =~= prior.remove(i as int));
                            lemma_window_map_remove(prior, i as int);
                            self.closed@ = self.closed@.insert(window.0);
                        }
                        SendOutcome::Disconnected
                    }
                }
            }
        }
    }

    /// Takes the oldest queued message out of the mailbox of the window
    /// carrying `window`: the worker side of the mailbox protocol, consuming
    /// in FIFO order.
    pub fn pop_message(&mut self, window: WindowId) -> (r: Option<WindowMessage<T>>)
        requires
            old(self).wf(),
        ensures
            final(self).wf(),
            final(self).guard_count() == old(self).guard_count(),
            final(self).closed_ids() == old(self).closed_ids(),
            !old(self).windows().dom().contains(window.0) ==> r is None && *final(self) == *old(
                self,
            ),
            old(self).windows().dom().contains(window.0) ==> ({
                let m = old(self).windows()[window.0];
                if m.messages.len() == 0 {
                    r is None && final(self).windows() == old(self).windows()
                } else {
                    &&& r == Some(m.messages[0])
                    &&& final(self).windows() == old(self).windows().insert(
                        window.0,
                        MailboxModel { messages: m.messages.drop_first(), ..m },
                    )
                }
            }),
    {
        proof {
            lemma_window_map_dom(self.open@);
        }
        match self.find(window) {
            None => None,
            Some(i) => {
                proof {
                    lemma_window_map_index(self.open@, i as int);
                }
                let r = self.open[i].mailbox.pop();
                proof {
                    lemma_window_map_update(old(self).open@, i as int, self.open@[i as int]);
                    if old(self).windows()[window.0].messages.len() == 0 {
                        assert(self.open@ =~= old(self).open@);
                    }
                }
                r
            }
        }
    }

    /// Removes the window carrying `window` from the registry, and returns
    /// whether the application should now shut down: true exactly when no
    /// windows remain open and no shutdown guard is held.
    pub fn close(&mut self, window: WindowId) -> (should_shutdown: bool)
        requires
            old(self).wf(),
        ensures
            final(self).wf(),
            final(self).windows() == old(self).windows().remove(window.0),
            final(self).guard_count() == old(self).guard_count(),
            final(self).closed_ids() == old(self).closed_ids().insert(window.0),
            should_shutdown == final(self).shutdown_eligible(),
    {
        proof {
            lemma_window_map_dom(self.open@);
        }
        match self.find(window) {
            Some(i) => {
                let removed = self.open.remove(i);
                proof {
                    let ghost prior = old(self).open@;
                    assert(self.open@ =~= prior.remove(i as int));
                    lemma_window_map_remove(prior, i as int);
                    self.closed@ = self.closed@.insert(window.0);
                }
            }
            None => {
                proof {
                    assert(self.windows() =~= old(self).windows().remove(window.0));
                    self.closed@ = self.closed@.insert(window.0);
                }
            }
        }
        self.should_shutdown()
    }

    /// Raises the shutdown-prevention guard counter.
    pub fn prevent_shutdown(&mut self)
        requires
            old(self).wf(),
            old(self).guard_count() < usize::MAX,
        ensures
            final(self).wf(),
            final(self).windows() == old(self).windows(),
            final(self).guard_count() == old(self).guard_count() + 1,
            final(self).closed_ids() == old(self).closed_ids(),
    {
        self.guards = self.guards + 1;
    }

    /// Lowers the shutdown-prevention guard counter, and returns whether the
    /// application should now shut down: true exactly when no windows remain
    /// open and this was the last guard.
    pub fn allow_shutdown(&mut self) -> (should_shutdown: bool)
        requires
            old(self).wf(),
            old(self).guard_count() > 0,
        ensures
            final(self).wf(),
            final(self).windows() == old(self).windows(),
            final(self).guard_count() == old(self).guard_count() - 1,
            final(self).closed_ids() == old(self).closed_ids(),
            should_shutdown == final(self).shutdown_eligible(),
    {
        self.guards = self.guards - 1;
        self.should_shutdown()
    }

    /// The number of shutdown guards currently held.
    pub fn guards(&self) -> (r: usize)
        ensures
            r == self.guard_count(),
    {
        self.guards
    }

    /// True exactly when the registry holds no windows and no guard is held.
    pub fn should_shutdown(&self) -> (r: bool)
        ensures
            r == self.shutdown_eligible(),
    {
        proof {
            if self.open@.len() > 0 {
                assert(self.windows().dom().contains(self.open@.last().id.0));
            } else {
                assert(self.windows().dom() =~= Set::<u64>::empty());
            }
        }
        self.open.len() == 0 && self.guards == 0
    }

    /// Delivers a theme-change event to every open window's mailbox, under
    /// the usual non-blocking drop-on-overflow policy.
    pub fn theme_changed(&mut self, theme: Theme)
        requires
            old(self).wf(),
        ensures
            final(self).wf(),
            final(self).guard_count() == old(self).guard_count(),
            final(self).closed_ids() == old(self).closed_ids(),
            final(self).windows().dom() == old(self).windows().dom(),
            forall|id: u64|
                #[trigger] old(self).windows().dom().contains(id)
                    ==> final(self).windows()[id] == try_send_model(
                    old(self).windows()[id],
                    WindowMessage::Event(WindowEvent::ThemeChanged(theme)),
                ),
    {
        let ghost prior = self.open@;
        let ghost message = WindowMessage::<T>::Event(WindowEvent::ThemeChanged(theme));
        let mut i: usize = 0;
        while i < self.open.len()
            invariant
                old(self).wf(),
                prior == old(self).open@,
                message == WindowMessage::<T>::Event(WindowEvent::ThemeChanged(theme)),
                self.guards == old(self).guards,
                self.closed == old(self).closed,
                i <= self.open@.len(),
                self.open@.len() == prior.len(),
                forall|j: int| 0 <= j < self.open@.len() ==> (#[trigger] self.open@[j]).id
                    == prior[j].id,
                forall|j: int| i <= j < self.open@.len() ==> #[trigger] self.open@[j]
                    == prior[j],
                forall|j: int| 0 <= j < i ==> (#[trigger] self.open@[j]).mailbox.model()
                    == try_send_model(prior[j].mailbox.model(), message),
                forall|j: int| 0 <= j < self.open@.len() ==> (
                #[trigger] self.open@[j]).mailbox.wf(),
            decreases self.open@.len() - i,
        {
            let ghost before = self.open@;
            self.open[i].mailbox.try_send(WindowMessage::Event(WindowEvent::ThemeChanged(theme)));
            proof {
                assert(self.open@[i as int].id == prior[i as int].id);
                assert(before[i as int] == prior[i as int]);
                assert(self.open@[i as int].mailbox.model() == try_send_model(
                    prior[i as int].mailbox.model(),
                    message,
                ));
            }
            i = i + 1;
        }
        proof {
            assert(distinct_ids(self.open@));
            lemma_window_map_dom(prior);
            lemma_window_map_dom(self.open@);
            assert forall|id: u64|
                self.windows().dom().contains(id) <==> #[trigger] old(self).windows().dom()
                    .contains(id) by {
                if self.windows().dom().contains(id) {
                    let j = choose|j: int|
                        0 <= j < self.open@.len() && self.open@[j].id.0 == id;
                    assert(prior[j].id.0 == id);
                }
                if old(self).windows().dom().contains(id) {
                    let j = choose|j: int| 0 <= j < prior.len() && prior[j].id.0 == id;
                    assert(self.open@[j].id.0 == id);
                }
            }
            assert(self.windows().dom() =~= old(self).windows().dom());
            assert forall|id: u64| #[trigger] old(self).windows().dom().contains(id) implies self
                .windows()[id] == try_send_model(old(self).windows()[id], message) by {
                let j = choose|j: int| 0 <= j < prior.len() && prior[j].id.0 == id;
                lemma_window_map_index(prior, j);
                lemma_window_map_index(self.open@, j);
            }
        }
    }
}

impl<T> Default for Windows<T> {
    /// An empty registry: no windows, no guards, nothing ever removed.
    fn default() -> (r: Windows<T>)
        ensures
            r.wf(),
            r.windows() == Map::<u64, MailboxModel<T>>::empty(),
            r.guard_count() == 0,
            r.closed_ids() == Set::<u64>::empty(),
    {
        Windows { open: Vec::new(), guards: 0, closed: Ghost(Set::empty()) }
    }
}

/// Once an identifier has been removed from the registry, every later lookup
/// returns "not found": the open entries never carry a removed identifier,
/// because re-registering one is ruled out by the platform's guarantee that
/// an identifier is not reused while the closed window that held it still
/// exists — the premise under which [`Windows::open`] is called.
pub proof fn lemma_closed_never_found<T>(w: Windows<T>, id: WindowId)
    requires
        w.wf(),
        w.closed_ids().contains(id.0),
    ensures
        !w.windows().dom().contains(id.0),
{
    lemma_window_map_dom(w.open@);
}

/// A held shutdown guard blocks the shutdown signal, however many windows
/// are open: releasing the last guard (or closing the last window while no
/// guard is held) is the only way the system becomes shutdown-eligible.
pub proof fn lemma_guard_blocks_shutdown<T>(w: Windows<T>)
    requires
        w.guard_count() > 0,
    ensures
        !w.shutdown_eligible(),
{
}

} // verus!
