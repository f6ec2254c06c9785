//! The capability table and the bus: how one plugin calls a named operation
//! on the capability of another without knowing its type.

use vstd::prelude::*;
use crate::error::{fails_with, not_registered, ErrorView, PluginError};
use crate::payload::{Decode, Encode, Payload};
use crate::text::{first_index, is_first_at, lemma_first_index, lemma_has_first, same_text};

verus! {

/// Whether `r` is the failure of a capability that has no operation `operation`.
pub open spec fn refuses<T>(r: Result<T, PluginError>, operation: Seq<char>) -> bool {
    r matches Err(e) && e@ is OperationNotSupported && e@->operation == operation
}

/// The service that a plugin offers to the others. It has one entry point,
/// which takes the name of an operation and a structured value.
pub trait PluginData {
    /// Whether the capability has an operation of this name.
    spec fn supports(&self, operation: &str) -> bool;

    /// Whether `reply` is an answer that the capability, as it is, may give
    /// to the operation `operation` on `value`. A capability that says
    /// nothing of its answers leaves every answer open.
    open spec fn answers(
        &self,
        operation: &str,
        value: Payload,
        reply: Result<Payload, PluginError>,
    ) -> bool {
        true
    }

    /// Carries out the operation `name` on `value`. An operation that the
    /// capability does not have fails as such, and is never passed over.
    fn apply(&mut self, name: &str, value: Payload) -> (r: Result<Payload, PluginError>)
        ensures
            !old(self).supports(name) ==> refuses(r, name@),
            old(self).answers(name, value, r),
    ;
}

/// Whether the capability `data` has the operations of `model` and answers
/// as `model` does.
pub open spec fn same_capability<D: PluginData>(data: &Box<dyn PluginData>, model: D) -> bool {
    &&& forall|operation: &str| #[trigger] data.supports(operation) == model.supports(operation)
    &&& forall|operation: &str, value: Payload, reply: Result<Payload, PluginError>| #[trigger]
        data.answers(operation, value, reply) == model.answers(operation, value, reply)
}

/// Whether `r` is what the answer `reply` gives a caller that expects a `T`:
/// the failure as it is; the value read as a `T` where it has the shape of
/// one; a decode failure where it has not.
pub open spec fn reply_as<T: Decode>(
    reply: Result<Payload, PluginError>,
    r: Result<T, PluginError>,
) -> bool {
    match reply {
        Ok(value) => match T::decoded(value) {
            Some(t) => r == Ok::<T, PluginError>(t),
            None => fails_with(r, ErrorView::DecodeMismatch),
        },
        Err(e) => r == Err::<T, PluginError>(e),
    }
}

/// What a capability's answer gives a caller that expects a `T`.
pub fn decode_reply<T: Decode>(reply: Result<Payload, PluginError>) -> (r: Result<
    T,
    PluginError,
>)
    ensures
        reply_as::<T>(reply, r),
{
    match reply {
        Ok(value) => match T::decode(&value) {
            Some(t) => Ok(t),
            None => Err(PluginError::DecodeMismatch),
        },
        Err(e) => Err(e),
    }
}

/// Whether `r` is what a call of the operation `name` of `data` with `info`
/// may give a caller that expects a `T`: an answer of the capability to what
/// `info` is written as, read as a `T`.
pub open spec fn invoked<T: Decode, P: Encode>(
    data: &Box<dyn PluginData>,
    name: &str,
    info: P,
    r: Result<T, PluginError>,
) -> bool {
    exists|value: Payload, reply: Result<Payload, PluginError>|
        info.encodes(value) && #[trigger] data.answers(name, value, reply) && reply_as::<T>(
            reply,
            r,
        )
}

/// Calls the operation `name` of a capability with `info` written as a
/// structured value, and reads the answer as a `T`.
pub fn invoke<T: Decode, P: Encode>(data: &mut Box<dyn PluginData>, name: &str, info: &P) -> (r:
    Result<T, PluginError>)
    ensures
        !old(data).supports(name) ==> refuses(r, name@),
        invoked::<T, P>(old(data), name, *info, r),
{
    let value = info.encode();
    let ghost sent = value;
    let reply = data.apply(name, value);
    let ghost answer = reply;
    let r = decode_reply::<T>(reply);
    proof {
        assert(info.encodes(sent) && old(data).answers(name, sent, answer) && reply_as::<T>(
            answer,
            r,
        ));
    }
    r
}

/// A capability under the name of the plugin that owns it.
struct StoreEntry<T> {
    name: String,
    data: T,
}

/// The table of capabilities, keyed by plugin name.
pub struct PluginStore {
    entries: Vec<StoreEntry<Box<dyn PluginData>>>,
}

impl PluginStore {
    /// The names under which capabilities are kept, in the order in which
    /// they came.
    pub closed spec fn names(&self) -> Seq<Seq<char>> {
        self.entries@.map_values(|e: StoreEntry<Box<dyn PluginData>>| e.name@)
    }

    /// Whether a capability is kept under `name`.
    pub open spec fn contains(&self, name: Seq<char>) -> bool {
        self.names().contains(name)
    }

    /// The capability that is kept under `name`, where one is.
    pub closed spec fn data_of(&self, name: Seq<char>) -> &Box<dyn PluginData> {
        &self.entries@[first_index(self.names(), name)].data
    }

    /// Whether `other` keeps what `self` keeps under every name but `name`.
    pub open spec fn same_but(&self, other: PluginStore, name: Seq<char>) -> bool {
        forall|kept: Seq<char>|
            kept != name && #[trigger] self.contains(kept) ==> other.contains(kept)
                && other.data_of(kept) == self.data_of(kept)
    }

    /// Whether `other` keeps what `self` keeps under every name but
    /// `first` and `second`.
    pub open spec fn same_beside(
        &self,
        other: PluginStore,
        first: Seq<char>,
        second: Seq<char>,
    ) -> bool {
        forall|kept: Seq<char>|
            kept != first && kept != second && #[trigger] self.contains(kept) ==> other.contains(
                kept,
            ) && other.data_of(kept) == self.data_of(kept)
    }

    /// The table without capabilities.
    pub fn new() -> (r: PluginStore)
        ensures
            r.names() == Seq::<Seq<char>>::empty(),
    {
        let r = PluginStore { entries: Vec::new() };
        assert(r.names() =~= Seq::<Seq<char>>::empty());
        r
    }

    fn find(&self, plugin: &str) -> (r: Option<usize>)
        ensures
            match r {
                Some(i) => is_first_at(self.names(), plugin@, i as int) && first_index(
                    self.names(),
                    plugin@,
                ) == i,
                None => !self.contains(plugin@),
            },
    {
        let mut i: usize = 0;
        while i < self.entries.len()
            invariant
                i <= self.entries.len(),
                forall|j: int| 0 <= j < i ==> (#[trigger] self.entries@[j]).name@ != plugin@,
            decreases self.entries.len() - i,
        {
            if same_text(self.entries[i].name.as_str(), plugin) {
                proof {
                    assert(self.names().len() == self.entries@.len());
                    assert forall|j: int| 0 <= j < i implies #[trigger] self.names()[j]
                        != plugin@ by {
                        assert(self.entries@[j].name@ != plugin@);
                    }
                    lemma_first_index(self.names(), plugin@, i as int);
                }
                return Some(i);
            }
            i += 1;
        }
        proof {
            assert forall|j: int| 0 <= j < self.names().len() implies self.names()[j]
                != plugin@ by {
                assert(self.entries@[j].name@ != plugin@);
            }
        }
        None
    }

    /// Whether a capability is kept under `plugin`.
    pub fn has_data(&self, plugin: &str) -> (r: bool)
        ensures
            r == self.contains(plugin@),
    {
        self.find(plugin).is_some()
    }

    fn place(&mut self, entry: StoreEntry<Box<dyn PluginData>>)
        ensures
            final(self).names() == if old(self).contains(entry.name@) {
                old(self).names()
            } else {
                old(self).names().push(entry.name@)
            },
            final(self).contains(entry.name@),
            *final(self).data_of(entry.name@) == entry.data,
            old(self).same_but(*final(self), entry.name@),
    {
        let ghost before = *self;
        let ghost names = self.names();
        let ghost key = entry.name@;
        let ghost given = entry;
        match self.find(entry.name.as_str()) {
            Some(i) => {
                self.entries.set(i, entry);
                proof {
                    assert(self.entries@[i as int] == given);
                    assert(self.names() =~= names);
                    lemma_first_index(self.names(), key, i as int);
                    assert(*self.data_of(key) == given.data);
                    assert forall|kept: Seq<char>|
                        kept != key && #[trigger] before.contains(kept) implies self.contains(
                        kept,
                    ) && self.data_of(kept) == before.data_of(kept) by {
                        lemma_has_first(names, kept);
                        assert(first_index(names, kept) != i);
                    }
                }
            },
            None => {
                self.entries.push(entry);
                proof {
                    let last = names.len() as int;
                    assert(self.entries@[last] == given);
                    assert(self.names() =~= names.push(key));
                    assert(self.names()[last] == key);
                    assert(is_first_at(self.names(), key, last));
                    lemma_first_index(self.names(), key, last);
                    assert(*self.data_of(key) == given.data);
                    assert forall|kept: Seq<char>|
                        kept != key && #[trigger] before.contains(kept) implies self.contains(
                        kept,
                    ) && self.data_of(kept) == before.data_of(kept) by {
                        lemma_has_first(names, kept);
                        let f = first_index(names, kept);
                        assert(self.names()[f] == kept);
                        assert(is_first_at(self.names(), kept, f));
                        lemma_first_index(self.names(), kept, f);
                    }
                }
            },
        }
    }

    /// Keeps `data` under `name`, in place of what was kept under it before.
    /// What is kept under other names stays.
    pub fn insert(&mut self, name: String, data: Box<dyn PluginData>)
        ensures
            final(self).names() == if old(self).contains(name@) {
                old(self).names()
            } else {
                old(self).names().push(name@)
            },
            final(self).contains(name@),
            *final(self).data_of(name@) == data,
            old(self).same_but(*final(self), name@),
    {
        let entry = StoreEntry { name, data };
        self.place(entry);
    }

    /// Keeps what a plugin offers under the plugin's name: the capability
    /// where it offers one, nothing where it does not.
    pub fn install(&mut self, name: &str, data: Option<Box<dyn PluginData>>)
        ensures
            match data {
                Some(capability) => {
                    &&& final(self).names() == if old(self).contains(name@) {
                        old(self).names()
                    } else {
                        old(self).names().push(name@)
                    }
                    &&& final(self).contains(name@)
                    &&& *final(self).data_of(name@) == capability
                    &&& old(self).same_but(*final(self), name@)
                },
                None => *final(self) == *old(self),
            },
    {
        match data {
            Some(capability) => {
                let entry = StoreEntry { name: name.to_string(), data: capability };
                self.place(entry);
            },
            None => {},
        }
    }

    /// The capability of `plugin`. That there is none is an ordinary answer.
    /// What is kept under other names is out of the borrower's reach.
    pub fn get_data(&mut self, plugin: &str) -> (r: Result<&mut Box<dyn PluginData>, PluginError>)
        ensures
            match r {
                Ok(data) => {
                    &&& old(self).contains(plugin@)
                    &&& *data == *old(self).data_of(plugin@)
                    &&& final(self).names() == old(self).names()
                    &&& *final(self).data_of(plugin@) == *final(data)
                    &&& old(self).same_but(*final(self), plugin@)
                },
                Err(e) => !old(self).contains(plugin@) && e@ == (ErrorView::PluginNotRegistered {
                    plugin: plugin@,
                }) && *final(self) == *old(self),
            },
    {
        match self.find(plugin) {
            Some(i) => {
                proof {
                    lemma_frame(*old(self), *final(self), plugin@, i as int);
                }
                Ok(&mut self.entries[i].data)
            },
            None => Err(not_registered(plugin)),
        }
    }
}

/// A table that differs from another only in the capability at the place
/// `i` keeps what the other keeps under every other name.
proof fn lemma_frame(before: PluginStore, after: PluginStore, name: Seq<char>, i: int)
    requires
        is_first_at(before.names(), name, i),
    ensures
        (after.entries@.len() == before.entries@.len() && (forall|j: int|
            0 <= j < before.entries@.len() && j != i ==> #[trigger] after.entries@[j]
                == before.entries@[j]) && after.entries@[i].name == before.entries@[i].name)
            ==> after.names() == before.names() && *after.data_of(name) == after.entries@[i].data
            && before.same_but(after, name),
{
    if after.entries@.len() == before.entries@.len() && (forall|j: int|
        0 <= j < before.entries@.len() && j != i ==> #[trigger] after.entries@[j]
            == before.entries@[j]) && after.entries@[i].name == before.entries@[i].name {
        let names = before.names();
        assert(names.len() == before.entries@.len());
        assert(after.names().len() == after.entries@.len());
        assert forall|j: int| 0 <= j < names.len() implies after.names()[j] == names[j] by {
            if j != i {
                assert(after.entries@[j] == before.entries@[j]);
            }
        }
        assert(after.names() =~= names);
        lemma_first_index(names, name, i);
        assert(*after.data_of(name) == after.entries@[i].data);
        assert forall|kept: Seq<char>|
            kept != name && #[trigger] before.contains(kept) implies after.contains(kept)
            && after.data_of(kept) == before.data_of(kept) by {
            lemma_has_first(names, kept);
            let f = first_index(names, kept);
            assert(f != i);
            assert(after.entries@[f] == before.entries@[f]);
        }
    }
}

} // verus!
