use vstd::prelude::*;

verus! {

/// The kinds of notification a waiter can wait for. The pool uses a
/// single kind: one element has disconnected (been returned or
/// extracted) while the pool was shutting down.
#[derive(Clone, Copy, Debug, PartialEq, Eq, Structural)]
pub enum Event {
    OneElemDisconnected,
}

/// The identity of a parked execution context. The caller that parks a
/// thread picks a fresh identity, registers it, and maps the identity
/// back to the parked context when it is woken; two waiters are equal
/// exactly when their identities are.
#[derive(Clone, Copy, Debug, PartialEq, Eq, Structural)]
pub struct Waiter {
    id: u64,
}

impl Waiter {
    /// The identity this waiter was created with.
    pub closed spec fn id_spec(self) -> u64 {
        self.id
    }

    /// A waiter with identity `id`.
    pub fn new(id: u64) -> (waiter: Waiter)
        ensures
            waiter.id_spec() == id,
    {
        Waiter { id }
    }

    /// The identity this waiter was created with.
    pub fn id(&self) -> (id: u64)
        ensures
            id == self.id_spec(),
    {
        self.id
    }
}

/// Whether some registered entry waits for `event`.
pub open spec fn has_waiter_for(entries: Seq<(Waiter, Event)>, event: Event) -> bool {
    exists|i: int| 0 <= i < entries.len() && (#[trigger] entries[i]).1 == event
}

/// What one `notify_one` call does to a registry: if some entry waits
/// for `event`, the first such entry (in registration order) is removed
/// and its waiter handed back; otherwise nothing changes and no waiter
/// is returned.
pub open spec fn notify_one_post(
    before: Seq<(Waiter, Event)>,
    after: Seq<(Waiter, Event)>,
    event: Event,
    woken: Option<Waiter>,
) -> bool {
    if has_waiter_for(before, event) {
        exists|i: int|
            {
                &&& 0 <= i < before.len()
                &&& (#[trigger] before[i]).1 == event
                &&& (forall|j: int| 0 <= j < i ==> (#[trigger] before[j]).1 != event)
                &&& woken == Some(before[i].0)
                &&& after == before.remove(i)
            }
    } else {
        woken is None && after == before
    }
}

/// Waiters are woken in registration order: whenever an entry at
/// position `i` waits for `event`, a notify wakes somebody, and the
/// entry it wakes is registered no later than position `i`.
pub proof fn lemma_first_registered_first_woken(
    before: Seq<(Waiter, Event)>,
    after: Seq<(Waiter, Event)>,
    event: Event,
    woken: Option<Waiter>,
    i: int,
)
    requires
        notify_one_post(before, after, event, woken),
        0 <= i < before.len(),
        before[i].1 == event,
    ensures
        woken is Some,
        exists|k: int|
            0 <= k <= i && (#[trigger] before[k]).1 == event && woken == Some(before[k].0),
{
    assert(has_waiter_for(before, event));
    let k: int = choose|k: int|
        {
            &&& 0 <= k < before.len()
            &&& (#[trigger] before[k]).1 == event
            &&& (forall|j: int| 0 <= j < k ==> (#[trigger] before[j]).1 != event)
            &&& woken == Some(before[k].0)
            &&& after == before.remove(k)
        };
    assert(k <= i);
    assert(0 <= k <= i && before[k].1 == event && woken == Some(before[k].0));
}

/// A registry of waiters, each parked on a specific event. Waiters for
/// the same event are woken in registration order, first registered
/// first.
pub struct Notifier {
    waiters: Vec<(Waiter, Event)>,
}

impl View for Notifier {
    type V = Seq<(Waiter, Event)>;

    closed spec fn view(&self) -> Seq<(Waiter, Event)> {
        self.waiters@
    }
}

impl Default for Notifier {
    /// An empty registry.
    fn default() -> (notifier: Notifier)
        ensures
            notifier@ == Seq::<(Waiter, Event)>::empty(),
    {
        Notifier { waiters: Vec::new() }
    }
}

impl Notifier {
    /// Append a waiter for `event` at the end of the registry. No
    /// deduplication: registering the same waiter twice leaves two
    /// entries.
    pub fn regist(&mut self, waiter: Waiter, event: Event)
        ensures
            final(self)@ == old(self)@.push((waiter, event)),
    {
        self.waiters.push((waiter, event));
    }

    /// Remove and return the first waiter registered for `event`, if
    /// any. At most one waiter is taken per call, however many match.
    pub fn notify_one(&mut self, event: Event) -> (woken: Option<Waiter>)
        ensures
            notify_one_post(old(self)@, final(self)@, event, woken),
            woken is Some <==> has_waiter_for(old(self)@, event),
    {
        let n: usize = self.waiters.len();
        let mut i: usize = 0;
        while i < n
            invariant
                i <= n,
                n == self.waiters@.len(),
                self.waiters@ == old(self).waiters@,
                forall|j: int| 0 <= j < i ==> (#[trigger] self.waiters@[j]).1 != event,
            decreases n - i,
        {
            if self.waiters[i].1 == event {
                let entry = self.waiters.remove(i);
                proof {
                    let before = old(self).waiters@;
                    let k: int = i as int;
                    assert(before[k].1 == event);
                    assert(has_waiter_for(before, event));
                    assert(forall|j: int| 0 <= j < k ==> (#[trigger] before[j]).1 != event);
                    assert(self.waiters@ == before.remove(k));
                }
                return Some(entry.0);
            }
            i += 1;
        }
        None
    }
}

} // verus!
