use vstd::prelude::*;

use crate::bridge::{Notification, NotificationQueue, send_step};
use crate::window::{
    ParentWindow, SpawnError, WindowSpec, is_supported, parent_address, spec_window, window_spec,
};

verus! {

/// Where an editor session stands.
#[derive(Clone, Copy, Debug, PartialEq, Eq, Structural)]
pub enum EditorPhase {
    /// No window was asked for yet.
    Unspawned,
    /// The window was asked for and its thread is starting.
    Spawning,
    /// The window is up and takes notifications.
    Active,
    /// The window and its thread were torn down.
    Closed,
}

/// A new window may be asked for: none is starting or up.
pub open spec fn spawn_allowed(p: EditorPhase) -> bool {
    p is Unspawned || p is Closed
}

/// What asking for a window as a child of `parent` gives in phase `p`.
pub open spec fn spawn_result(p: EditorPhase, parent: ParentWindow) -> Result<WindowSpec, SpawnError> {
    if !spawn_allowed(p) {
        Err(SpawnError::AlreadySpawned)
    } else if !is_supported(parent) {
        Err(SpawnError::UnsupportedParent)
    } else {
        Ok(spec_window(parent_address(parent)))
    }
}

pub open spec fn phase_after_spawn(p: EditorPhase, parent: ParentWindow) -> EditorPhase {
    if spawn_result(p, parent) is Ok {
        EditorPhase::Spawning
    } else {
        p
    }
}

pub open spec fn phase_after_activate(p: EditorPhase) -> EditorPhase {
    if p is Spawning {
        EditorPhase::Active
    } else {
        p
    }
}

pub open spec fn phase_after_close(p: EditorPhase) -> EditorPhase {
    if p is Spawning || p is Active {
        EditorPhase::Closed
    } else {
        p
    }
}

/// The editor's side of the host binding: its lifecycle, and the changes that
/// wait to be taken over by the editor's thread.
pub struct EditorSession<V> {
    phase: EditorPhase,
    queue: NotificationQueue<Notification<V>>,
}

impl<V> EditorSession<V> {
    pub closed spec fn phase_of(&self) -> EditorPhase {
        self.phase
    }

    /// The notifications that wait for the editor's thread, oldest first.
    pub closed spec fn pending(&self) -> Seq<Notification<V>> {
        self.queue@
    }

    /// The most notifications that may wait at once.
    pub closed spec fn cap(&self) -> nat {
        self.queue.cap()
    }

    pub closed spec fn wf(&self) -> bool {
        &&& self.queue.wf()
        &&& !(self.phase is Active) ==> self.queue@.len() == 0
    }

    /// A session with no window yet, in which at most `capacity`
    /// notifications may wait.
    pub fn new(capacity: usize) -> (r: Self)
        ensures
            r.wf(),
            r.phase_of() == EditorPhase::Unspawned,
            r.pending() == Seq::<Notification<V>>::empty(),
            r.cap() == capacity,
    {
        EditorSession { phase: EditorPhase::Unspawned, queue: NotificationQueue::new(capacity) }
    }

    pub fn phase(&self) -> (r: EditorPhase)
        ensures
            r == self.phase_of(),
    {
        self.phase
    }

    /// Asks for a window as a child of `parent`. On success the session is
    /// spawning and the window to create is returned; an unsupported parent,
    /// or a window that is already starting or up, leaves the session as it
    /// was.
    pub fn spawn(&mut self, parent: &ParentWindow) -> (r: Result<WindowSpec, SpawnError>)
        requires
            old(self).wf(),
        ensures
            final(self).wf(),
            final(self).cap() == old(self).cap(),
            r == spawn_result(old(self).phase_of(), *parent),
            final(self).phase_of() == phase_after_spawn(old(self).phase_of(), *parent),
            final(self).pending() == old(self).pending(),
    {
        if !(matches!(self.phase, EditorPhase::Unspawned) || matches!(self.phase, EditorPhase::Closed)) {
            return Err(SpawnError::AlreadySpawned);
        }
        let r = window_spec(parent);
        if r.is_ok() {
            self.phase = EditorPhase::Spawning;
        }
        r
    }

    /// Records that the window's thread is up. Returns whether the session
    /// was spawning.
    pub fn activate(&mut self) -> (r: bool)
        requires
            old(self).wf(),
        ensures
            final(self).wf(),
            final(self).cap() == old(self).cap(),
            r == (old(self).phase_of() is Spawning),
            final(self).phase_of() == phase_after_activate(old(self).phase_of()),
            final(self).pending() == old(self).pending(),
    {
        if matches!(self.phase, EditorPhase::Spawning) {
            self.phase = EditorPhase::Active;
            true
        } else {
            false
        }
    }

    /// Tears the session down: what still waits is dropped. Returns whether
    /// a window was starting or up.
    pub fn close(&mut self) -> (r: bool)
        requires
            old(self).wf(),
        ensures
            final(self).wf(),
            final(self).cap() == old(self).cap(),
            r == (old(self).phase_of() is Spawning || old(self).phase_of() is Active),
            final(self).phase_of() == phase_after_close(old(self).phase_of()),
            final(self).pending() == Seq::<Notification<V>>::empty(),
    {
        self.queue.clear();
        if matches!(self.phase, EditorPhase::Spawning) || matches!(self.phase, EditorPhase::Active) {
            self.phase = EditorPhase::Closed;
            true
        } else {
            false
        }
    }

    /// Hands `n` over to the editor's thread without blocking. Returns whether
    /// it was taken: only while the window is up and the queue has room.
    pub fn notify(&mut self, n: Notification<V>) -> (r: bool)
        requires
            old(self).wf(),
        ensures
            final(self).wf(),
            final(self).cap() == old(self).cap(),
            final(self).phase_of() == old(self).phase_of(),
            r == (old(self).phase_of() is Active && old(self).pending().len() < old(self).cap()),
            r ==> final(self).pending() == send_step(old(self).pending(), old(self).cap(), n),
            !r ==> final(self).pending() == old(self).pending(),
    {
        if matches!(self.phase, EditorPhase::Active) {
            let sent = self.queue.send(n);
            sent.is_ok()
        } else {
            false
        }
    }

    /// A parameter's normalized value changed.
    pub fn param_value_changed(&mut self, id: String, normalized: V) -> (r: bool)
        requires
            old(self).wf(),
        ensures
            final(self).wf(),
            final(self).cap() == old(self).cap(),
            final(self).phase_of() == old(self).phase_of(),
            r == (old(self).phase_of() is Active && old(self).pending().len() < old(self).cap()),
            r ==> final(self).pending() == old(self).pending().push(
                Notification::ValueChanged { id, normalized },
            ),
            !r ==> final(self).pending() == old(self).pending(),
    {
        self.notify(Notification::ValueChanged { id, normalized })
    }

    /// A parameter's modulation offset changed.
    pub fn param_modulation_changed(&mut self, id: String, offset: V) -> (r: bool)
        requires
            old(self).wf(),
        ensures
            final(self).wf(),
            final(self).cap() == old(self).cap(),
            final(self).phase_of() == old(self).phase_of(),
            r == (old(self).phase_of() is Active && old(self).pending().len() < old(self).cap()),
            r ==> final(self).pending() == old(self).pending().push(
                Notification::ModulationChanged { id, offset },
            ),
            !r ==> final(self).pending() == old(self).pending(),
    {
        self.notify(Notification::ModulationChanged { id, offset })
    }

    /// Several parameter values changed at once.
    pub fn param_values_changed(&mut self) -> (r: bool)
        requires
            old(self).wf(),
        ensures
            final(self).wf(),
            final(self).cap() == old(self).cap(),
            final(self).phase_of() == old(self).phase_of(),
            r == (old(self).phase_of() is Active && old(self).pending().len() < old(self).cap()),
            r ==> final(self).pending() == old(self).pending().push(Notification::ValuesChanged),
            !r ==> final(self).pending() == old(self).pending(),
    {
        self.notify(Notification::ValuesChanged)
    }

    /// Asks the editor to render at scale `factor`. Returns whether the
    /// request was taken; when it was not, the editor keeps its scale.
    pub fn set_scale_factor(&mut self, factor: V) -> (r: bool)
        requires
            old(self).wf(),
        ensures
            final(self).wf(),
            final(self).cap() == old(self).cap(),
            final(self).phase_of() == old(self).phase_of(),
            r == (old(self).phase_of() is Active && old(self).pending().len() < old(self).cap()),
            r ==> final(self).pending() == old(self).pending().push(Notification::ScaleFactor(factor)),
            !r ==> final(self).pending() == old(self).pending(),
    {
        self.notify(Notification::ScaleFactor(factor))
    }

    /// Takes out, for the editor's thread, the notification that has waited
    /// longest.
    pub fn next_notification(&mut self) -> (r: Option<Notification<V>>)
        requires
            old(self).wf(),
        ensures
            final(self).wf(),
            final(self).cap() == old(self).cap(),
            final(self).phase_of() == old(self).phase_of(),
            old(self).pending().len() == 0 ==> r is None && final(self).pending() == old(self).pending(),
            old(self).pending().len() > 0 ==> r == Some(old(self).pending()[0])
                && final(self).pending() == old(self).pending().drop_first(),
    {
        self.queue.receive()
    }
}

/// The editor's lifecycle: a supported parent takes a fresh session through
/// spawning to active, closing it ends in closed, and a later spawn on the
/// same kind of parent succeeds again. An unsupported parent gives the
/// configuration error and leaves the session where it was.
pub proof fn lemma_lifecycle(parent: ParentWindow)
    ensures
        is_supported(parent) ==> {
            let spawned = phase_after_spawn(EditorPhase::Unspawned, parent);
            let active = phase_after_activate(spawned);
            let closed = phase_after_close(active);
            &&& spawn_result(EditorPhase::Unspawned, parent) is Ok
            &&& spawned == EditorPhase::Spawning
            &&& active == EditorPhase::Active
            &&& closed == EditorPhase::Closed
            &&& spawn_result(closed, parent) == spawn_result(EditorPhase::Unspawned, parent)
            &&& phase_after_activate(phase_after_spawn(closed, parent)) == EditorPhase::Active
        },
        !is_supported(parent) ==> {
            &&& spawn_result(EditorPhase::Unspawned, parent) == Err::<WindowSpec, SpawnError>(
                SpawnError::UnsupportedParent,
            )
            &&& phase_after_spawn(EditorPhase::Unspawned, parent) == EditorPhase::Unspawned
        },
{
}

} // verus!
