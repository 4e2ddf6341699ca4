//! The envelopes that the store wraps its answers in, and the responses
//! that hold one envelope for each identifier asked for.

use vstd::prelude::*;

use crate::error::SteamErr;
use crate::ids::{decimal, id_to_string};

verus! {

/// An answer of the store with its flag: whether the request succeeded, and
/// the data, which the store sends only where it did.
#[derive(Debug)]
pub struct Envelope<T> {
    pub success: bool,
    pub data: Option<T>,
}

impl<T> Envelope<T> {
    /// What an envelope amounts to: its data where the store reports
    /// success and sent any, `ResponseWithNoSuccess` where it reports
    /// failure, and `ResponseWithNoData` where it reports success but sent
    /// nothing.
    pub open spec fn outcome(self) -> Result<T, SteamErr> {
        if !self.success {
            Err(SteamErr::ResponseWithNoSuccess)
        } else {
            match self.data {
                Some(data) => Ok(data),
                None => Err(SteamErr::ResponseWithNoData),
            }
        }
    }

    /// Opens the envelope.
    pub fn into_result(self) -> (result: Result<T, SteamErr>)
        ensures
            result == self.outcome(),
    {
        if !self.success {
            return Err(SteamErr::ResponseWithNoSuccess);
        }
        match self.data {
            Some(data) => Ok(data),
            None => Err(SteamErr::ResponseWithNoData),
        }
    }
}

/// What an answer with a numeric status amounts to: the answer itself where
/// the status is 1, and `ResponseWithNoSuccess` for any other status.
pub open spec fn status_outcome<T>(status: int, answer: T) -> Result<T, SteamErr> {
    if status == 1 {
        Ok(answer)
    } else {
        Err(SteamErr::ResponseWithNoSuccess)
    }
}

/// The entries of a response as plain text keys with their values.
pub open spec fn entries_text<T>(entries: Seq<(String, T)>) -> Seq<(Seq<char>, T)> {
    entries.map_values(|entry: (String, T)| (entry.0@, entry.1))
}

/// Whether some entry stands under `key`.
pub open spec fn has_key<T>(entries: Seq<(Seq<char>, T)>, key: Seq<char>) -> bool {
    exists|i: int| 0 <= i < entries.len() && (#[trigger] entries[i]).0 == key
}

/// The place of the entry that stands under `key`.
pub open spec fn index_of<T>(entries: Seq<(Seq<char>, T)>, key: Seq<char>) -> int {
    choose|i: int| 0 <= i < entries.len() && (#[trigger] entries[i]).0 == key
}

/// Whether no key stands twice.
pub open spec fn keys_differ<T>(entries: Seq<(Seq<char>, T)>) -> bool {
    forall|i: int, j: int|
        0 <= i < j < entries.len() ==> (#[trigger] entries[i]).0 != (#[trigger] entries[j]).0
}

/// Under distinct keys, an entry is found where it stands.
pub proof fn lemma_index_of<T>(entries: Seq<(Seq<char>, T)>, i: int)
    requires
        keys_differ(entries),
        0 <= i < entries.len(),
    ensures
        has_key(entries, entries[i].0),
        index_of(entries, entries[i].0) == i,
{
    let key = entries[i].0;
    let found = index_of(entries, key);
    assert(0 <= found < entries.len() && entries[found].0 == key);
    if found < i {
        assert(entries[found].0 != entries[i].0);
    } else if i < found {
        assert(entries[i].0 != entries[found].0);
    }
}

/// A response that holds one value for each key: the JSON object that the
/// store answers with where it is asked about identifiers, keyed by their
/// decimal text. No key stands twice, and the entries keep the order in
/// which they were put in.
#[derive(Debug)]
pub struct IdMap<T> {
    entries: Vec<(String, T)>,
}

impl<T> View for IdMap<T> {
    type V = Seq<(Seq<char>, T)>;

    /// The entries, in their order, with their keys as plain text.
    closed spec fn view(&self) -> Seq<(Seq<char>, T)> {
        entries_text(self.entries@)
    }
}

impl<T> IdMap<T> {
    #[verifier::type_invariant]
    spec fn well_formed(self) -> bool {
        keys_differ(entries_text(self.entries@))
    }

    /// A response without entries.
    pub fn new() -> (map: Self)
        ensures
            map@ == Seq::<(Seq<char>, T)>::empty(),
    {
        let map = IdMap { entries: Vec::new() };
        assert(map@ =~= Seq::<(Seq<char>, T)>::empty());
        map
    }

    /// The number of entries.
    pub fn len(&self) -> (len: usize)
        ensures
            len == self@.len(),
    {
        self.entries.len()
    }

    /// The place of the entry under `key`, if there is one.
    fn position(&self, key: &String) -> (place: Option<usize>)
        ensures
            keys_differ(self@),
            match place {
                Some(i) => has_key(self@, key@) && i == index_of(self@, key@) && i < self@.len(),
                None => !has_key(self@, key@),
            },
    {
        proof {
            use_type_invariant(self);
        }
        let mut i: usize = 0;
        while i < self.entries.len()
            invariant
                i <= self.entries.len(),
                keys_differ(self@),
                self@ == entries_text(self.entries@),
                forall|j: int| 0 <= j < i ==> (#[trigger] self@[j]).0 != key@,
            decreases self.entries.len() - i,
        {
            if self.entries[i].0 == *key {
                proof {
                    assert(self@[i as int].0 == key@);
                    lemma_index_of(self@, i as int);
                }
                return Some(i);
            }
            i = i + 1;
        }
        None
    }

    /// Puts `value` under `key`. Where the key already stands, its value is
    /// replaced and returned, and the entry keeps its place; a new key goes
    /// to the end.
    pub fn insert(&mut self, key: String, value: T) -> (replaced: Option<T>)
        ensures
            keys_differ(final(self)@),
            has_key(old(self)@, key@) ==> replaced == Some(
                old(self)@[index_of(old(self)@, key@)].1,
            ) && final(self)@ == old(self)@.update(index_of(old(self)@, key@), (key@, value)),
            !has_key(old(self)@, key@) ==> replaced is None && final(self)@ == old(self)@.push(
                (key@, value),
            ),
    {
        match self.position(&key) {
            Some(i) => {
                let ghost before = self@;
                let mut entries: Vec<(String, T)> = Vec::new();
                core::mem::swap(&mut self.entries, &mut entries);
                let (_, old_value) = entries.remove(i);
                entries.insert(i, (key, value));
                assert(entries_text(entries@) =~= before.update(i as int, (key@, value)));
                core::mem::swap(&mut self.entries, &mut entries);
                Some(old_value)
            },
            None => {
                let ghost before = self@;
                let mut entries: Vec<(String, T)> = Vec::new();
                core::mem::swap(&mut self.entries, &mut entries);
                entries.push((key, value));
                assert(entries_text(entries@) =~= before.push((key@, value)));
                core::mem::swap(&mut self.entries, &mut entries);
                None
            },
        }
    }

    /// Takes out the entry under `key` and returns its value, if there is
    /// one. The other entries keep their order.
    pub fn remove(&mut self, key: &String) -> (value: Option<T>)
        ensures
            keys_differ(final(self)@),
            has_key(old(self)@, key@) ==> value == Some(old(self)@[index_of(old(self)@, key@)].1)
                && final(self)@ == old(self)@.remove(index_of(old(self)@, key@)),
            !has_key(old(self)@, key@) ==> value is None && final(self)@ == old(self)@,
    {
        match self.position(key) {
            Some(i) => {
                let ghost before = self@;
                let mut entries: Vec<(String, T)> = Vec::new();
                core::mem::swap(&mut self.entries, &mut entries);
                let (_, value) = entries.remove(i);
                assert(entries_text(entries@) =~= before.remove(i as int));
                core::mem::swap(&mut self.entries, &mut entries);
                Some(value)
            },
            None => None,
        }
    }

    /// The entries, in their order.
    pub fn into_entries(self) -> (entries: Vec<(String, T)>)
        ensures
            entries_text(entries@) == self@,
            keys_differ(self@),
    {
        proof {
            use_type_invariant(&self);
        }
        self.entries
    }
}

/// What a response amounts to for the identifier `id`: `IdNotFound` with
/// the identifier's text where no entry stands under that text, whatever
/// the other entries say; else what the envelope under it amounts to.
pub open spec fn is_answer_for<T>(
    result: Result<T, SteamErr>,
    entries: Seq<(Seq<char>, Envelope<T>)>,
    id: u64,
) -> bool {
    let key = decimal(id as nat);
    if has_key(entries, key) {
        result == entries[index_of(entries, key)].1.outcome()
    } else {
        result matches Err(SteamErr::IdNotFound(text)) && text@ == key
    }
}

/// An identifier that the response holds no entry for is reported as not
/// found, with its own text, whatever the other entries say.
pub proof fn lemma_absent_id_is_not_found<T>(
    result: Result<T, SteamErr>,
    entries: Seq<(Seq<char>, Envelope<T>)>,
    id: u64,
)
    requires
        is_answer_for(result, entries, id),
        forall|i: int| 0 <= i < entries.len() ==> (#[trigger] entries[i]).0 != decimal(id as nat),
    ensures
        result matches Err(SteamErr::IdNotFound(text)) && text@ == decimal(id as nat),
{
}

/// An entry that is there is judged by its own envelope alone: failure
/// reported gives `ResponseWithNoSuccess`, success without data gives
/// `ResponseWithNoData` and nothing else, and data gives the data.
pub proof fn lemma_present_id_is_opened<T>(
    result: Result<T, SteamErr>,
    entries: Seq<(Seq<char>, Envelope<T>)>,
    id: u64,
    at: int,
)
    requires
        is_answer_for(result, entries, id),
        keys_differ(entries),
        0 <= at < entries.len(),
        entries[at].0 == decimal(id as nat),
    ensures
        !entries[at].1.success ==> result == Err::<T, SteamErr>(SteamErr::ResponseWithNoSuccess),
        entries[at].1.success && entries[at].1.data is None ==> result == Err::<T, SteamErr>(
            SteamErr::ResponseWithNoData,
        ),
        entries[at].1.success && entries[at].1.data is Some ==> result == Ok::<T, SteamErr>(
            entries[at].1.data->0,
        ),
{
    lemma_index_of(entries, at);
}

/// Takes the answer for one identifier out of a response.
///
/// The entry is looked up under the identifier's decimal text. That it is
/// there is settled first; only then is its envelope opened.
pub fn take_answer<T>(data: IdMap<Envelope<T>>, id: u64) -> (result: Result<T, SteamErr>)
    ensures
        is_answer_for(result, data@, id),
{
    let key = id_to_string(id);
    let mut data = data;
    match data.remove(&key) {
        Some(envelope) => envelope.into_result(),
        None => Err(SteamErr::IdNotFound(key)),
    }
}

} // verus!
