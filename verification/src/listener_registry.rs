//! The listener registry: the one place where a listener's identity crosses the
//! boundary between the two runtimes.
//!
//! A registration is a pair of a topic and a listener. Each registration has a
//! 64-bit handle, derived from the topic and from the listener's identity, and the
//! foreign side only ever holds that handle. The registry keeps the set of live
//! registrations and a reverse map from handle to listener.
//!
//! The handle is a hash, so two registrations can share one. The registry keeps
//! the first: a registration whose handle is already in the reverse map is not
//! inserted, and the existing mapping stays as it is.

use vstd::prelude::*;
use vstd::std_specs::hash::DefaultHasherAdditionalSpecFns;
use vstd::string::StringSliceAdditionalSpecFns;
use vstd::utf8::encode_utf8;
use std::collections::HashMap;
use std::collections::hash_map::DefaultHasher;
use std::hash::Hasher;
use crate::parcel::digits_of;

verus! {

/// An address that listeners subscribe to: an authority, the identity and major
/// version of an entity, and a resource of that entity.
#[derive(Debug, PartialEq, Eq)]
pub struct Topic {
    pub(crate) authority_name: String,
    pub(crate) ue_id: u32,
    pub(crate) ue_version_major: u32,
    pub(crate) resource_id: u32,
}

/// The mathematical value of a [`Topic`]. Two topics are the same topic exactly
/// when their values are equal.
pub struct TopicView {
    pub authority_name: Seq<char>,
    pub ue_id: u32,
    pub ue_version_major: u32,
    pub resource_id: u32,
}

impl View for Topic {
    type V = TopicView;

    closed spec fn view(&self) -> TopicView {
        TopicView {
            authority_name: self.authority_name@,
            ue_id: self.ue_id,
            ue_version_major: self.ue_version_major,
            resource_id: self.resource_id,
        }
    }
}

impl Default for Topic {
    fn default() -> (topic: Topic)
        ensures
            topic@ == (TopicView {
                authority_name: Seq::<char>::empty(),
                ue_id: 0,
                ue_version_major: 0,
                resource_id: 0,
            }),
    {
        Topic { authority_name: String::new(), ue_id: 0, ue_version_major: 0, resource_id: 0 }
    }
}

impl Clone for Topic {
    fn clone(&self) -> (copy: Topic)
        ensures
            copy@ == self@,
    {
        Topic {
            authority_name: self.authority_name.clone(),
            ue_id: self.ue_id,
            ue_version_major: self.ue_version_major,
            resource_id: self.resource_id,
        }
    }
}

impl Topic {
    /// The topic with the given parts.
    pub fn new(authority_name: &str, ue_id: u32, ue_version_major: u32, resource_id: u32) -> (topic:
        Topic)
        ensures
            topic@ == (TopicView {
                authority_name: authority_name@,
                ue_id,
                ue_version_major,
                resource_id,
            }),
    {
        Topic {
            authority_name: authority_name.to_owned(),
            ue_id,
            ue_version_major,
            resource_id,
        }
    }

    /// The name of the authority that hosts the entity.
    pub fn authority_name(&self) -> (name: &str)
        ensures
            name@ == self@.authority_name,
    {
        self.authority_name.as_str()
    }

    /// The identity of the entity.
    pub fn ue_id(&self) -> (id: u32)
        ensures
            id == self@.ue_id,
    {
        self.ue_id
    }

    /// The major version of the entity.
    pub fn ue_version_major(&self) -> (version: u32)
        ensures
            version == self@.ue_version_major,
    {
        self.ue_version_major
    }

    /// The resource of the entity that the topic selects.
    pub fn resource_id(&self) -> (id: u32)
        ensures
            id == self@.resource_id,
    {
        self.resource_id
    }

    /// Whether `self` and `other` are the same topic.
    pub fn same_as(&self, other: &Topic) -> (same: bool)
        ensures
            same == (self@ == other@),
    {
        self.authority_name == other.authority_name && self.ue_id == other.ue_id
            && self.ue_version_major == other.ue_version_major && self.resource_id
            == other.resource_id
    }
}

/// A callback capability together with the identity under which the registry
/// knows it.
///
/// Listeners are told apart by identity alone: two listeners that behave alike
/// but were allocated separately have different identities. The caller derives
/// the identity from the reference it holds (its address, say) and keeps it
/// stable for as long as the listener is registered.
#[derive(Debug)]
pub struct Listener<L> {
    pub identity: u64,
    pub callback: L,
}

impl<L> Listener<L> {
    /// The listener `callback` under the identity `identity`.
    pub fn new(identity: u64, callback: L) -> (listener: Listener<L>)
        ensures
            listener == (Listener { identity, callback }),
    {
        Listener { identity, callback }
    }
}

/// The byte strings that are hashed, in this order, to derive the handle of the
/// registration of the listener `identity` on `topic`: the authority name in
/// UTF-8, then the three numbers of the topic and the two halves of the identity,
/// low half first, each as four base-256 digits, least significant first.
pub open spec fn handle_input(topic: TopicView, identity: u64) -> Seq<Seq<u8>> {
    seq![
        encode_utf8(topic.authority_name),
        digits_of(topic.ue_id as int),
        digits_of(topic.ue_version_major as int),
        digits_of(topic.resource_id as int),
        digits_of(identity as int % 0x1_0000_0000),
        digits_of(identity as int / 0x1_0000_0000),
    ]
}

/// The handle of the registration of the listener `identity` on `topic`: what the
/// standard library's default hasher makes of [`handle_input`].
pub open spec fn listener_handle(topic: TopicView, identity: u64) -> u64 {
    DefaultHasher::spec_finish(handle_input(topic, identity))
}

/// Feeds the four base-256 digits of `value`, least significant first, to
/// `hasher`.
fn write_u32(hasher: &mut DefaultHasher, value: u32)
    ensures
        final(hasher)@ == old(hasher)@.push(digits_of(value as int)),
{
    let q1: u32 = value / 256;
    let q2: u32 = q1 / 256;
    let q3: u32 = q2 / 256;
    let mut digits: Vec<u8> = Vec::new();
    digits.push((value % 256) as u8);
    digits.push((q1 % 256) as u8);
    digits.push((q2 % 256) as u8);
    digits.push((q3 % 256) as u8);
    assert(digits@ =~= digits_of(value as int));
    hasher.write(digits.as_slice());
}

/// Derives the handle of the registration of the listener `identity` on `topic`.
///
/// The handle depends on nothing but the topic's value and the identity, so the
/// same pair always gets the same handle.
pub fn compute_handle(topic: &Topic, identity: u64) -> (handle: u64)
    ensures
        handle == listener_handle(topic@, identity),
{
    let mut hasher = DefaultHasher::new();
    hasher.write(topic.authority_name.as_str().as_bytes());
    write_u32(&mut hasher, topic.ue_id);
    write_u32(&mut hasher, topic.ue_version_major);
    write_u32(&mut hasher, topic.resource_id);
    write_u32(&mut hasher, (identity % 0x1_0000_0000) as u32);
    write_u32(&mut hasher, (identity / 0x1_0000_0000) as u32);
    assert(hasher@ =~= handle_input(topic@, identity));
    hasher.finish()
}

/// A registration as the registry sees it: a topic and the identity of the
/// listener subscribed to it.
pub struct Registration {
    pub topic: TopicView,
    pub identity: u64,
}

impl Registration {
    /// The handle under which the foreign side knows this registration.
    pub open spec fn handle(self) -> u64 {
        listener_handle(self.topic, self.identity)
    }
}

/// The mathematical value of a [`ListenerRegistry`]: the live registrations in
/// the order in which they were made, and the reverse map from handle to
/// listener.
#[verifier::reject_recursive_types(L)]
pub struct RegistryView<L> {
    pub registrations: Seq<Registration>,
    pub listeners: Map<u64, Listener<L>>,
}

impl<L> RegistryView<L> {
    /// What every registry satisfies: live registrations have distinct handles
    /// (so no pair of topic and listener is there twice), and the handle of each
    /// resolves to a listener with the registration's identity.
    pub open spec fn wf(self) -> bool {
        &&& forall|i: int, j: int|
            0 <= i < j < self.registrations.len() ==> (#[trigger] self.registrations[i]).handle()
                != (#[trigger] self.registrations[j]).handle()
        &&& forall|i: int|
            0 <= i < self.registrations.len() ==> {
                let handle = (#[trigger] self.registrations[i]).handle();
                self.listeners.contains_key(handle) && self.listeners[handle].identity
                    == self.registrations[i].identity
            }
    }

    /// Whether every handle in the reverse map is the handle of a live
    /// registration, so that no handle resolves once its registration is gone.
    pub open spec fn is_exact(self) -> bool {
        forall|handle: u64| #[trigger]
            self.listeners.contains_key(handle) ==> exists|i: int|
                0 <= i < self.registrations.len() && (#[trigger] self.registrations[i]).handle()
                    == handle
    }

    /// Whether the listener `identity` is registered on `topic`.
    pub open spec fn holds(self, topic: TopicView, identity: u64) -> bool {
        self.registrations.contains(Registration { topic, identity })
    }

    /// Whether the listener `identity` is registered on a topic other than
    /// `topic`.
    pub open spec fn held_elsewhere(self, topic: TopicView, identity: u64) -> bool {
        exists|i: int|
            0 <= i < self.registrations.len() && (#[trigger] self.registrations[i]).identity
                == identity && self.registrations[i].topic != topic
    }

    /// The listener that `handle` stands for, if any.
    pub open spec fn resolve(self, handle: u64) -> Option<Listener<L>> {
        if self.listeners.contains_key(handle) {
            Some(self.listeners[handle])
        } else {
            None
        }
    }

    /// The registry after `listener` was registered on `topic`. Where the handle
    /// is already taken, by this registration or by another, nothing changes.
    pub open spec fn store(self, topic: TopicView, listener: Listener<L>) -> RegistryView<L> {
        let handle = listener_handle(topic, listener.identity);
        if self.listeners.contains_key(handle) {
            self
        } else {
            RegistryView {
                registrations: self.registrations.push(
                    Registration { topic, identity: listener.identity },
                ),
                listeners: self.listeners.insert(handle, listener),
            }
        }
    }

    /// The registry after the listener `identity` was unregistered from `topic`.
    /// Where there is no such registration, nothing changes. Otherwise the
    /// registration leaves the set, and its handle leaves the reverse map unless
    /// another topic still holds the same listener.
    pub open spec fn remove(self, topic: TopicView, identity: u64) -> RegistryView<L> {
        let registration = Registration { topic, identity };
        if !self.registrations.contains(registration) {
            self
        } else {
            RegistryView {
                registrations: self.registrations.remove(
                    self.registrations.index_of(registration),
                ),
                listeners: if self.held_elsewhere(topic, identity) {
                    self.listeners
                } else {
                    self.listeners.remove(registration.handle())
                },
            }
        }
    }
}

/// One entry of the registration set.
#[derive(Debug)]
struct Entry {
    topic: Topic,
    identity: u64,
}

impl Entry {
    spec fn registration(self) -> Registration {
        Registration { topic: self.topic@, identity: self.identity }
    }
}

/// The set of live registrations and the reverse map from handle to listener. It
/// is an ordinary value: whoever owns it decides how it is shared and locked.
#[derive(Debug)]
pub struct ListenerRegistry<L> {
    listeners: Vec<Entry>,
    hash_to_listener: HashMap<u64, Listener<L>>,
}

impl<L> View for ListenerRegistry<L> {
    type V = RegistryView<L>;

    closed spec fn view(&self) -> RegistryView<L> {
        RegistryView {
            registrations: self.listeners@.map_values(|entry: Entry| entry.registration()),
            listeners: self.hash_to_listener@,
        }
    }
}

impl<L> ListenerRegistry<L> {
    /// A registry without registrations.
    pub fn new() -> (registry: ListenerRegistry<L>)
        ensures
            registry@.registrations == Seq::<Registration>::empty(),
            registry@.listeners == Map::<u64, Listener<L>>::empty(),
            registry@.wf(),
            registry@.is_exact(),
    {
        let registry = ListenerRegistry { listeners: Vec::new(), hash_to_listener: HashMap::new() };
        assert(registry@.registrations =~= Seq::<Registration>::empty());
        registry
    }

    /// The number of live registrations.
    pub fn len(&self) -> (count: usize)
        ensures
            count == self@.registrations.len(),
    {
        self.listeners.len()
    }

    /// The index of the registration of the listener `identity` on `topic`.
    fn position_of(&self, topic: &Topic, identity: u64) -> (found: Option<usize>)
        ensures
            match found {
                Some(index) => index < self@.registrations.len() && self@.registrations[index as int]
                    == (Registration { topic: topic@, identity }),
                None => !self@.holds(topic@, identity),
            },
    {
        let mut index: usize = 0;
        while index < self.listeners.len()
            invariant
                index <= self.listeners.len(),
                forall|i: int|
                    0 <= i < index ==> #[trigger] self@.registrations[i] != (Registration {
                        topic: topic@,
                        identity,
                    }),
            decreases self.listeners.len() - index,
        {
            if self.listeners[index].identity == identity && self.listeners[index].topic.same_as(
                topic,
            ) {
                return Some(index);
            }
            index += 1;
        }
        None
    }

    /// Whether the listener `identity` is registered on `topic`.
    pub fn contains(&self, topic: &Topic, identity: u64) -> (held: bool)
        ensures
            held == self@.holds(topic@, identity),
    {
        self.position_of(topic, identity).is_some()
    }

    /// Whether the listener `identity` is registered on a topic other than
    /// `topic`.
    pub fn held_elsewhere(&self, topic: &Topic, identity: u64) -> (held: bool)
        ensures
            held == self@.held_elsewhere(topic@, identity),
    {
        let mut index: usize = 0;
        while index < self.listeners.len()
            invariant
                index <= self.listeners.len(),
                forall|i: int|
                    0 <= i < index ==> !((#[trigger] self@.registrations[i]).identity == identity
                        && self@.registrations[i].topic != topic@),
            decreases self.listeners.len() - index,
        {
            if self.listeners[index].identity == identity && !self.listeners[index].topic.same_as(
                topic,
            ) {
                assert(self@.registrations[index as int].identity == identity);
                return true;
            }
            index += 1;
        }
        false
    }

    /// Registers `listener` on `topic` and returns the handle of the
    /// registration.
    ///
    /// Registering the same pair again changes nothing and returns the same
    /// handle. So does registering a pair whose handle another registration
    /// already has: the existing mapping stays, and the new pair is not inserted.
    pub fn store_listener(&mut self, topic: Topic, listener: Listener<L>) -> (handle: u64)
        requires
            old(self)@.wf(),
        ensures
            handle == listener_handle(topic@, listener.identity),
            final(self)@ == old(self)@.store(topic@, listener),
            final(self)@.wf(),
            old(self)@.is_exact() ==> final(self)@.is_exact(),
    {
        let identity: u64 = listener.identity;
        let handle: u64 = compute_handle(&topic, identity);
        proof {
            lemma_store_keeps_wf(self@, topic@, listener);
        }
        if !self.hash_to_listener.contains_key(&handle) {
            self.listeners.push(Entry { topic, identity });
            self.hash_to_listener.insert(handle, listener);
            assert(self@.registrations =~= old(self)@.registrations.push(
                Registration { topic: topic@, identity },
            ));
        }
        handle
    }

    /// The listener that `hash` stands for, if any.
    pub fn get_listener(&self, hash: u64) -> (listener: Option<&Listener<L>>)
        ensures
            match listener {
                Some(found) => self@.resolve(hash) == Some(*found),
                None => self@.resolve(hash) is None,
            },
    {
        self.hash_to_listener.get(&hash)
    }

    /// Unregisters the listener `identity` from `topic` and says whether there
    /// was such a registration.
    ///
    /// The registration leaves the set. Its handle leaves the reverse map too,
    /// unless another topic still holds the same listener: then the handle goes
    /// on resolving to it.
    pub fn remove_listener(&mut self, topic: &Topic, identity: u64) -> (removed: bool)
        requires
            old(self)@.wf(),
        ensures
            removed == old(self)@.holds(topic@, identity),
            final(self)@ == old(self)@.remove(topic@, identity),
            final(self)@.wf(),
            old(self)@.is_exact() && !old(self)@.held_elsewhere(topic@, identity)
                ==> final(self)@.is_exact(),
    {
        proof {
            lemma_remove_keeps_wf(self@, topic@, identity);
        }
        let index: usize = match self.position_of(topic, identity) {
            Some(index) => index,
            None => {
                return false;
            },
        };
        let shared: bool = self.held_elsewhere(topic, identity);
        let handle: u64 = compute_handle(topic, identity);
        proof {
            let registration = Registration { topic: topic@, identity };
            let chosen = self@.registrations.index_of(registration);
            assert(self@.registrations[index as int] == registration);
            assert(chosen == index) by {
                if chosen < index {
                    assert(self@.registrations[chosen].handle() != self@.registrations[index as int].handle());
                } else if index < chosen {
                    assert(self@.registrations[index as int].handle() != self@.registrations[chosen].handle());
                }
            }
        }
        self.listeners.remove(index);
        if !shared {
            self.hash_to_listener.remove(&handle);
        }
        assert(self@.registrations =~= old(self)@.registrations.remove(index as int));
        true
    }
}

/// Registration keeps a registry well formed, and keeps it exact if it was.
pub proof fn lemma_store_keeps_wf<L>(registry: RegistryView<L>, topic: TopicView, listener: Listener<L>)
    requires
        registry.wf(),
    ensures
        registry.store(topic, listener).wf(),
        registry.is_exact() ==> registry.store(topic, listener).is_exact(),
{
    let after = registry.store(topic, listener);
    let handle = listener_handle(topic, listener.identity);
    if !registry.listeners.contains_key(handle) {
        let last = registry.registrations.len() as int;
        assert(after.registrations[last].handle() == handle);
        assert forall|i: int, j: int| 0 <= i < j < after.registrations.len() implies (
        #[trigger] after.registrations[i]).handle() != (#[trigger] after.registrations[j]).handle() by {
            if j < last {
                assert(after.registrations[i] == registry.registrations[i]);
                assert(after.registrations[j] == registry.registrations[j]);
            } else {
                assert(after.registrations[i] == registry.registrations[i]);
                assert(registry.listeners.contains_key(registry.registrations[i].handle()));
            }
        }
        assert forall|i: int| 0 <= i < after.registrations.len() implies {
            let h = (#[trigger] after.registrations[i]).handle();
            after.listeners.contains_key(h) && after.listeners[h].identity
                == after.registrations[i].identity
        } by {
            if i < last {
                assert(after.registrations[i] == registry.registrations[i]);
                assert(registry.listeners.contains_key(registry.registrations[i].handle()));
            }
        }
        if registry.is_exact() {
            assert forall|h: u64| #[trigger] after.listeners.contains_key(h) implies exists|i: int|
                0 <= i < after.registrations.len() && (#[trigger] after.registrations[i]).handle()
                    == h by {
                if h == handle {
                    assert(after.registrations[last].handle() == h);
                } else {
                    assert(registry.listeners.contains_key(h));
                    let i = choose|i: int|
                        0 <= i < registry.registrations.len() && (
                        #[trigger] registry.registrations[i]).handle() == h;
                    assert(after.registrations[i] == registry.registrations[i]);
                }
            }
        }
    }
}

/// Unregistration keeps a registry well formed. It keeps it exact if it was,
/// unless another topic holds the same listener: then the handle of the removed
/// registration stays behind in the reverse map.
pub proof fn lemma_remove_keeps_wf<L>(registry: RegistryView<L>, topic: TopicView, identity: u64)
    requires
        registry.wf(),
    ensures
        registry.remove(topic, identity).wf(),
        registry.is_exact() && !registry.held_elsewhere(topic, identity) ==> registry.remove(
            topic,
            identity,
        ).is_exact(),
{
    let registration = Registration { topic, identity };
    let after = registry.remove(topic, identity);
    if registry.registrations.contains(registration) {
        let at = registry.registrations.index_of(registration);
        assert(registry.registrations[at] == registration);
        assert forall|i: int| 0 <= i < after.registrations.len() implies #[trigger] after.registrations[i]
            == registry.registrations[if i < at { i } else { i + 1 }] by {}
        assert forall|i: int, j: int| 0 <= i < j < after.registrations.len() implies (
        #[trigger] after.registrations[i]).handle() != (#[trigger] after.registrations[j]).handle() by {
            let from_i = if i < at { i } else { i + 1 };
            let from_j = if j < at { j } else { j + 1 };
            assert(after.registrations[i] == registry.registrations[from_i]);
            assert(after.registrations[j] == registry.registrations[from_j]);
        }
        assert forall|i: int| 0 <= i < after.registrations.len() implies {
            let h = (#[trigger] after.registrations[i]).handle();
            after.listeners.contains_key(h) && after.listeners[h].identity
                == after.registrations[i].identity
        } by {
            let from_i = if i < at { i } else { i + 1 };
            assert(after.registrations[i] == registry.registrations[from_i]);
            assert(registry.listeners.contains_key(registry.registrations[from_i].handle()));
            if from_i < at {
                assert(registry.registrations[from_i].handle() != registry.registrations[at].handle());
            } else {
                assert(registry.registrations[at].handle() != registry.registrations[from_i].handle());
            }
        }
        if registry.is_exact() && !registry.held_elsewhere(topic, identity) {
            assert forall|h: u64| #[trigger] after.listeners.contains_key(h) implies exists|i: int|
                0 <= i < after.registrations.len() && (#[trigger] after.registrations[i]).handle()
                    == h by {
                assert(registry.listeners.contains_key(h));
                let k = choose|k: int|
                    0 <= k < registry.registrations.len() && (
                    #[trigger] registry.registrations[k]).handle() == h;
                assert(k != at);
                let to = if k < at { k } else { k - 1 };
                assert(after.registrations[to] == registry.registrations[k]);
            }
        }
    }
}

/// Registration is idempotent: registering a pair a second time leaves the
/// registry as the first registration left it. (The handle is a function of the
/// pair, so both calls return the same one.)
pub proof fn lemma_store_twice_is_store_once<L>(
    registry: RegistryView<L>,
    topic: TopicView,
    listener: Listener<L>,
)
    ensures
        registry.store(topic, listener).store(topic, listener) == registry.store(topic, listener),
{
}

/// After a pair was registered twice, the registration set holds it exactly
/// once, provided that its handle was free, or the pair's own, to begin with.
pub proof fn lemma_registered_exactly_once<L>(
    registry: RegistryView<L>,
    topic: TopicView,
    listener: Listener<L>,
)
    requires
        registry.wf(),
        !registry.listeners.contains_key(listener_handle(topic, listener.identity))
            || registry.holds(topic, listener.identity),
    ensures
        ({
            let twice = registry.store(topic, listener).store(topic, listener);
            let registration = Registration { topic, identity: listener.identity };
            &&& twice.holds(topic, listener.identity)
            &&& forall|i: int, j: int|
                0 <= i < twice.registrations.len() && 0 <= j < twice.registrations.len()
                    && twice.registrations[i] == registration && twice.registrations[j]
                    == registration ==> i == j
        }),
{
    let once = registry.store(topic, listener);
    let registration = Registration { topic, identity: listener.identity };
    lemma_store_keeps_wf(registry, topic, listener);
    if !registry.listeners.contains_key(listener_handle(topic, listener.identity)) {
        assert(once.registrations[registry.registrations.len() as int] == registration);
    }
    assert forall|i: int, j: int|
        0 <= i < once.registrations.len() && 0 <= j < once.registrations.len()
            && once.registrations[i] == registration && once.registrations[j]
            == registration implies i == j by {
        if i < j {
            assert(once.registrations[i].handle() != once.registrations[j].handle());
        } else if j < i {
            assert(once.registrations[j].handle() != once.registrations[i].handle());
        }
    }
}

/// Once a pair is registered, its handle resolves to its listener, provided that
/// the handle was free, or already resolved to that listener, to begin with.
pub proof fn lemma_handle_resolves_after_store<L>(
    registry: RegistryView<L>,
    topic: TopicView,
    listener: Listener<L>,
)
    requires
        registry.resolve(listener_handle(topic, listener.identity)) is None || registry.resolve(
            listener_handle(topic, listener.identity),
        ) == Some(listener),
    ensures
        registry.store(topic, listener).resolve(listener_handle(topic, listener.identity)) == Some(
            listener,
        ),
{
}

/// A handle that resolves goes on resolving to the same listener whatever is
/// registered afterwards.
pub proof fn lemma_store_keeps_resolved<L>(
    registry: RegistryView<L>,
    handle: u64,
    topic: TopicView,
    listener: Listener<L>,
)
    requires
        registry.resolve(handle) is Some,
    ensures
        registry.store(topic, listener).resolve(handle) == registry.resolve(handle),
{
}

/// The handle of a live registration goes on resolving to the same listener
/// when any other registration is removed.
pub proof fn lemma_remove_of_other_keeps_resolved<L>(
    registry: RegistryView<L>,
    kept: Registration,
    topic: TopicView,
    identity: u64,
)
    requires
        registry.wf(),
        registry.registrations.contains(kept),
        kept != (Registration { topic, identity }),
    ensures
        registry.remove(topic, identity).resolve(kept.handle()) == registry.resolve(kept.handle()),
        registry.remove(topic, identity).registrations.contains(kept),
{
    let removed = Registration { topic, identity };
    if registry.registrations.contains(removed) {
        let at = registry.registrations.index_of(removed);
        let k = registry.registrations.index_of(kept);
        assert(registry.registrations[at] == removed);
        assert(registry.registrations[k] == kept);
        if k < at {
            assert(registry.registrations[k].handle() != registry.registrations[at].handle());
        } else {
            assert(registry.registrations[at].handle() != registry.registrations[k].handle());
        }
        let to = if k < at { k } else { k - 1 };
        assert(registry.remove(topic, identity).registrations[to] == kept);
    }
}

/// Once a live registration is removed, and no other topic holds its listener,
/// its handle resolves no more.
pub proof fn lemma_handle_gone_after_remove<L>(
    registry: RegistryView<L>,
    topic: TopicView,
    identity: u64,
)
    requires
        registry.wf(),
        registry.holds(topic, identity),
        !registry.held_elsewhere(topic, identity),
    ensures
        registry.remove(topic, identity).resolve(listener_handle(topic, identity)) is None,
        !registry.remove(topic, identity).holds(topic, identity),
{
    let removed = Registration { topic, identity };
    let after = registry.remove(topic, identity);
    let at = registry.registrations.index_of(removed);
    assert(registry.registrations[at] == removed);
    if after.registrations.contains(removed) {
        let i = after.registrations.index_of(removed);
        assert(after.registrations[i] == removed);
        let from = if i < at { i } else { i + 1 };
        assert(after.registrations[i] == registry.registrations[from]);
        if from < at {
            assert(registry.registrations[from].handle() != registry.registrations[at].handle());
        } else {
            assert(registry.registrations[at].handle() != registry.registrations[from].handle());
        }
    }
}

} // verus!
