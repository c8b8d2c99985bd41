//! The handler registry: who is subscribed, and with which handler.

use vstd::prelude::*;

verus! {

/// The identity of a subscriber: the one art overlay, or a text overlay by
/// its name.
#[derive(Debug, Eq)]
pub enum ClientId {
    Text(String),
    Art,
}

/// The mathematical value of a [`ClientId`].
pub enum ClientIdModel {
    Text(Seq<char>),
    Art,
}

impl View for ClientId {
    type V = ClientIdModel;

    open spec fn view(&self) -> ClientIdModel {
        match *self {
            ClientId::Text(name) => ClientIdModel::Text(name@),
            ClientId::Art => ClientIdModel::Art,
        }
    }
}

impl PartialEq for ClientId {
    fn eq(&self, other: &ClientId) -> (same: bool) {
        match (self, other) {
            (ClientId::Text(a), ClientId::Text(b)) => *a == *b,
            (ClientId::Art, ClientId::Art) => true,
            _ => false,
        }
    }
}

impl vstd::std_specs::cmp::PartialEqSpecImpl for ClientId {
    open spec fn obeys_eq_spec() -> bool {
        true
    }

    open spec fn eq_spec(&self, other: &ClientId) -> bool {
        self@ == other@
    }
}

impl ClientId {
    /// A copy of the identity.
    pub fn to_owned(&self) -> (copy: ClientId)
        ensures
            copy == *self,
    {
        match self {
            ClientId::Text(text) => ClientId::Text(text.clone()),
            ClientId::Art => ClientId::Art,
        }
    }
}

impl Clone for ClientId {
    fn clone(&self) -> (copy: ClientId)
        ensures
            copy == *self,
    {
        self.to_owned()
    }
}

/// The place of an identity among the entries, if it has one.
pub open spec fn position<H>(entries: Seq<(ClientIdModel, H)>, id: ClientIdModel) -> Option<int>
    decreases entries.len(),
{
    if entries.len() == 0 {
        None
    } else if entries.last().0 == id {
        Some(entries.len() - 1)
    } else {
        position(entries.drop_last(), id)
    }
}

/// Whether no identity has two entries.
pub open spec fn distinct<H>(entries: Seq<(ClientIdModel, H)>) -> bool {
    forall|i: int, j: int|
        0 <= i < j < entries.len() ==> (#[trigger] entries[i]).0 != (#[trigger] entries[j]).0
}

/// The handler that is registered for an identity, if there is one.
pub open spec fn handler_of<H>(entries: Seq<(ClientIdModel, H)>, id: ClientIdModel) -> Option<H> {
    match position(entries, id) {
        Some(i) => Some(entries[i].1),
        None => None,
    }
}

/// The entries after a handler was registered for an identity: the
/// identity's entry holds the new handler in its old place, or a new entry
/// stands at the end.
pub open spec fn with_handler<H>(
    entries: Seq<(ClientIdModel, H)>,
    id: ClientIdModel,
    handler: H,
) -> Seq<(ClientIdModel, H)> {
    match position(entries, id) {
        Some(i) => entries.update(i, (id, handler)),
        None => entries.push((id, handler)),
    }
}

/// The entries after an identity was taken out.
pub open spec fn without<H>(entries: Seq<(ClientIdModel, H)>, id: ClientIdModel) -> Seq<
    (ClientIdModel, H),
> {
    match position(entries, id) {
        Some(i) => entries.remove(i),
        None => entries,
    }
}

/// The identities of the entries, in their order.
pub open spec fn identities<H>(entries: Seq<(ClientIdModel, H)>) -> Seq<ClientIdModel> {
    Seq::new(entries.len(), |i: int| entries[i].0)
}

/// `position` finds an entry of the identity if and only if there is one.
pub proof fn lemma_position<H>(entries: Seq<(ClientIdModel, H)>, id: ClientIdModel)
    ensures
        match position(entries, id) {
            Some(i) => 0 <= i < entries.len() && entries[i].0 == id,
            None => forall|i: int| 0 <= i < entries.len() ==> (#[trigger] entries[i]).0 != id,
        },
    decreases entries.len(),
{
    if entries.len() > 0 && entries.last().0 != id {
        let rest = entries.drop_last();
        lemma_position(rest, id);
        match position(rest, id) {
            Some(i) => {
                assert(rest[i] == entries[i]);
            },
            None => {
                assert forall|i: int| 0 <= i < entries.len() implies (#[trigger] entries[i]).0
                    != id by {
                    if i < rest.len() {
                        assert(rest[i] == entries[i]);
                    }
                }
            },
        }
    }
}

/// Among distinct entries, the place of an entry's identity is that entry's
/// place.
pub proof fn lemma_position_of_entry<H>(entries: Seq<(ClientIdModel, H)>, i: int)
    requires
        distinct(entries),
        0 <= i < entries.len(),
    ensures
        position(entries, entries[i].0) == Some(i),
{
    lemma_position(entries, entries[i].0);
    let found = position(entries, entries[i].0);
    if found is None {
        assert(entries[i].0 != entries[i].0);
    } else {
        let j = found->0;
        if j < i {
            assert(entries[j].0 != entries[i].0);
        } else if i < j {
            assert(entries[i].0 != entries[j].0);
        }
    }
}

/// Registering keeps the entries distinct, makes the handler the one of its
/// identity, and leaves every other identity's handler as it was.
pub proof fn lemma_with_handler<H>(
    entries: Seq<(ClientIdModel, H)>,
    id: ClientIdModel,
    handler: H,
    other: ClientIdModel,
)
    requires
        distinct(entries),
    ensures
        distinct(with_handler(entries, id, handler)),
        handler_of(with_handler(entries, id, handler), id) == Some(handler),
        other != id ==> handler_of(with_handler(entries, id, handler), other) == handler_of(
            entries,
            other,
        ),
{
    let after = with_handler(entries, id, handler);
    lemma_position(entries, id);
    lemma_position(entries, other);
    match position(entries, id) {
        Some(i) => {
            assert forall|a: int, b: int| 0 <= a < b < after.len() implies (#[trigger] after[a]).0
                != (#[trigger] after[b]).0 by {
                assert(after[a].0 == entries[a].0);
                assert(after[b].0 == entries[b].0);
            }
            lemma_position_of_entry(after, i);
            if other != id {
                match position(entries, other) {
                    Some(k) => {
                        assert(after[k] == entries[k]);
                        lemma_position_of_entry(after, k);
                    },
                    None => {
                        lemma_position(after, other);
                        if position(after, other) is Some {
                            let k = position(after, other)->0;
                            assert(after[k].0 == entries[k].0);
                        }
                    },
                }
            }
        },
        None => {
            assert forall|a: int, b: int| 0 <= a < b < after.len() implies (#[trigger] after[a]).0
                != (#[trigger] after[b]).0 by {
                assert(after[a] == entries[a]);
                if b < entries.len() {
                    assert(after[b] == entries[b]);
                }
            }
            assert(after.drop_last() == entries);
        },
    }
}

/// Taking an identity out keeps the entries distinct, leaves the identity
/// without a handler, and leaves every other identity's handler as it was.
pub proof fn lemma_without<H>(
    entries: Seq<(ClientIdModel, H)>,
    id: ClientIdModel,
    other: ClientIdModel,
)
    requires
        distinct(entries),
    ensures
        distinct(without(entries, id)),
        handler_of(without(entries, id), id).is_none(),
        position(without(entries, id), id).is_none(),
        other != id ==> handler_of(without(entries, id), other) == handler_of(entries, other),
        forall|k: int|
            0 <= k < without(entries, id).len() ==> (#[trigger] without(entries, id)[k]).0 != id,
{
    let after = without(entries, id);
    lemma_position(entries, id);
    lemma_position(entries, other);
    match position(entries, id) {
        Some(i) => {
            assert forall|a: int, b: int| 0 <= a < b < after.len() implies (#[trigger] after[a]).0
                != (#[trigger] after[b]).0 by {
                let a0 = if a < i {
                    a
                } else {
                    a + 1
                };
                let b0 = if b < i {
                    b
                } else {
                    b + 1
                };
                assert(after[a] == entries[a0]);
                assert(after[b] == entries[b0]);
            }
            assert forall|k: int| 0 <= k < after.len() implies (#[trigger] after[k]).0 != id by {
                let k0 = if k < i {
                    k
                } else {
                    k + 1
                };
                assert(after[k] == entries[k0]);
                if k0 < i {
                    assert(entries[k0].0 != entries[i].0);
                } else {
                    assert(entries[i].0 != entries[k0].0);
                }
            }
            lemma_position(after, id);
            if other != id {
                match position(entries, other) {
                    Some(k) => {
                        let k1 = if k < i {
                            k
                        } else {
                            k - 1
                        };
                        assert(after[k1] == entries[k]);
                        lemma_position_of_entry(after, k1);
                    },
                    None => {
                        lemma_position(after, other);
                        if position(after, other) is Some {
                            let k = position(after, other)->0;
                            let k0 = if k < i {
                                k
                            } else {
                                k + 1
                            };
                            assert(after[k] == entries[k0]);
                        }
                    },
                }
            }
        },
        None => {},
    }
}

/// The handlers of the subscribers, each under its identity. No identity has
/// two.
pub struct Registry<H> {
    entries: Vec<(ClientId, H)>,
}

impl<H> View for Registry<H> {
    type V = Seq<(ClientIdModel, H)>;

    closed spec fn view(&self) -> Seq<(ClientIdModel, H)> {
        model_of(self.entries@)
    }
}

spec fn model_of<H>(entries: Seq<(ClientId, H)>) -> Seq<(ClientIdModel, H)> {
    Seq::new(entries.len(), |i: int| (entries[i].0@, entries[i].1))
}

impl<H> Registry<H> {
    #[verifier::type_invariant]
    spec fn no_identity_twice(self) -> bool {
        distinct(self@)
    }

    /// A registry without subscribers.
    pub fn new() -> (registry: Registry<H>)
        ensures
            registry@ == Seq::<(ClientIdModel, H)>::empty(),
    {
        let registry = Registry { entries: Vec::new() };
        assert(registry@ =~= Seq::<(ClientIdModel, H)>::empty());
        registry
    }

    /// Brings to the caller what holds of every registry: no identity has
    /// two entries. Does nothing when it runs.
    pub fn recall_distinct(&self)
        ensures
            distinct(self@),
    {
        proof {
            use_type_invariant(self);
        }
    }

    /// The number of subscribers.
    pub fn len(&self) -> (n: usize)
        ensures
            n == self@.len(),
    {
        self.entries.len()
    }

    /// Whether nobody is subscribed.
    pub fn is_empty(&self) -> (empty: bool)
        ensures
            empty == (self@.len() == 0),
    {
        self.entries.len() == 0
    }

    fn find(&self, id: &ClientId) -> (place: Option<usize>)
        ensures
            match place {
                Some(i) => position(self@, id@) == Some(i as int) && i < self@.len(),
                None => position(self@, id@).is_none(),
            },
    {
        proof {
            use_type_invariant(self);
        }
        let mut i: usize = 0;
        while i < self.entries.len()
            invariant
                i <= self.entries@.len(),
                self@.len() == self.entries@.len(),
                distinct(self@),
                forall|k: int| 0 <= k < i ==> (#[trigger] self@[k]).0 != id@,
            decreases self.entries.len() - i,
        {
            if self.entries[i].0 == *id {
                proof {
                    assert(self@[i as int].0 == id@);
                    lemma_position_of_entry(self@, i as int);
                }
                return Some(i);
            }
            assert(self@[i as int].0 != id@);
            i += 1;
        }
        proof {
            lemma_position(self@, id@);
        }
        None
    }

    /// Whether an identity is subscribed.
    pub fn contains(&self, id: &ClientId) -> (found: bool)
        ensures
            found == handler_of(self@, id@).is_some(),
    {
        self.find(id).is_some()
    }

    /// The handler of an identity.
    pub fn get(&self, id: &ClientId) -> (handler: Option<&H>)
        ensures
            match handler {
                Some(h) => handler_of(self@, id@) == Some(*h),
                None => handler_of(self@, id@).is_none(),
            },
    {
        match self.find(id) {
            Some(i) => Some(&self.entries[i].1),
            None => None,
        }
    }

    /// Registers a handler for an identity, in place of the one that the
    /// identity had, and hands that one back.
    pub fn insert(&mut self, id: ClientId, handler: H) -> (replaced: Option<H>)
        ensures
            final(self)@ == with_handler(old(self)@, id@, handler),
            replaced == handler_of(old(self)@, id@),
    {
        proof {
            use_type_invariant(&*self);
            lemma_with_handler(self@, id@, handler, id@);
        }
        let place = self.find(&id);
        let ghost before = self@;
        let mut taken = Registry { entries: Vec::new() };
        core::mem::swap(self, &mut taken);
        let mut entries = taken.entries;
        let replaced = match place {
            Some(i) => {
                let mut entry = (id, handler);
                core::mem::swap(&mut entries[i], &mut entry);
                Some(entry.1)
            },
            None => {
                entries.push((id, handler));
                None
            },
        };
        assert(model_of(entries@) =~= with_handler(before, id@, handler));
        *self = Registry { entries };
        replaced
    }

    /// Takes an identity out and hands its handler back.
    pub fn remove(&mut self, id: &ClientId) -> (removed: Option<H>)
        ensures
            final(self)@ == without(old(self)@, id@),
            removed == handler_of(old(self)@, id@),
    {
        proof {
            use_type_invariant(&*self);
            lemma_without(self@, id@, id@);
        }
        let place = self.find(id);
        let ghost before = self@;
        let mut taken = Registry { entries: Vec::new() };
        core::mem::swap(self, &mut taken);
        let mut entries = taken.entries;
        let removed = match place {
            Some(i) => Some(entries.remove(i).1),
            None => None,
        };
        assert(model_of(entries@) =~= without(before, id@));
        *self = Registry { entries };
        removed
    }

    /// The identities of all subscribers, in the order of their entries.
    pub fn ids(&self) -> (ids: Vec<ClientId>)
        ensures
            ids@.len() == self@.len(),
            forall|i: int| 0 <= i < ids@.len() ==> (#[trigger] ids@[i])@ == self@[i].0,
    {
        let mut ids: Vec<ClientId> = Vec::new();
        let mut i: usize = 0;
        while i < self.entries.len()
            invariant
                i <= self.entries@.len(),
                self@.len() == self.entries@.len(),
                ids@.len() == i,
                forall|k: int| 0 <= k < i ==> (#[trigger] ids@[k])@ == self@[k].0,
            decreases self.entries.len() - i,
        {
            ids.push(self.entries[i].0.to_owned());
            i += 1;
        }
        ids
    }

    /// Calls every handler once, in the order of the entries, each with the
    /// same two arguments, and hands back what the handlers returned, in
    /// that order. No handler's result keeps another from being called.
    pub fn call_all<A, C, R>(&self, state: &A, context: &C) -> (results: Vec<R>) where
        H: Fn(&A, &C) -> R,

        requires
            forall|i: int|
                0 <= i < self@.len() ==> call_requires((#[trigger] self@[i]).1, (state, context)),
        ensures
            results@.len() == self@.len(),
            forall|i: int|
                0 <= i < self@.len() ==> call_ensures(
                    self@[i].1,
                    (state, context),
                    #[trigger] results@[i],
                ),
    {
        let mut results: Vec<R> = Vec::new();
        let mut i: usize = 0;
        while i < self.entries.len()
            invariant
                i <= self.entries@.len(),
                self@.len() == self.entries@.len(),
                forall|k: int|
                    0 <= k < self@.len() ==> call_requires(
                        (#[trigger] self@[k]).1,
                        (state, context),
                    ),
                results@.len() == i,
                forall|k: int|
                    0 <= k < i ==> call_ensures(self@[k].1, (state, context), #[trigger] results@[k]),
            decreases self.entries.len() - i,
        {
            let handler = &self.entries[i].1;
            assert(*handler == self@[i as int].1);
            let result = handler(state, context);
            results.push(result);
            i += 1;
        }
        results
    }
}

} // verus!
