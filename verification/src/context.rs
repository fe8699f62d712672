//! The answer context: a flat store of resolved answers, looked up by key.

use vstd::prelude::*;
use crate::text::same_text;

verus! {

/// What an answer holds, as a mathematical value.
pub enum AnswerValue {
    Boolean(bool),
    Text(Seq<char>),
}

/// One resolved answer: a yes/no choice or a piece of text.
#[derive(Clone, Debug, PartialEq)]
pub enum ContextValue {
    Boolean(bool),
    String(String),
}

impl View for ContextValue {
    type V = AnswerValue;

    open spec fn view(&self) -> AnswerValue {
        match self {
            ContextValue::Boolean(b) => AnswerValue::Boolean(*b),
            ContextValue::String(s) => AnswerValue::Text(s@),
        }
    }
}

/// One key of the context with the answer stored under it.
#[derive(Clone, Debug, PartialEq)]
pub struct ContextEntry {
    pub key: String,
    pub value: ContextValue,
}

/// The map that a list of entries stands for: each entry is inserted in turn,
/// so a later entry wins over an earlier one with the same key.
pub open spec fn entries_map(s: Seq<ContextEntry>) -> Map<Seq<char>, AnswerValue>
    decreases s.len(),
{
    if s.len() == 0 {
        Map::empty()
    } else {
        entries_map(s.drop_last()).insert(s.last().key@, s.last().value@)
    }
}

/// No key occurs twice among the entries.
pub open spec fn distinct_keys(s: Seq<ContextEntry>) -> bool {
    forall|i: int, j: int| 0 <= i < j < s.len() ==> s[i].key@ != s[j].key@
}

/// A key is in the map exactly when some entry carries it.
pub proof fn lemma_entries_map_domain(s: Seq<ContextEntry>, k: Seq<char>)
    ensures
        entries_map(s).contains_key(k) <==> exists|i: int| 0 <= i < s.len() && s[i].key@ == k,
    decreases s.len(),
{
    if s.len() > 0 {
        let t = s.drop_last();
        lemma_entries_map_domain(t, k);
        if entries_map(s).contains_key(k) {
            if s.last().key@ == k {
                assert(s[s.len() - 1].key@ == k);
            } else {
                let i = choose|i: int| 0 <= i < t.len() && t[i].key@ == k;
                assert(s[i].key@ == k);
            }
        }
        if exists|i: int| 0 <= i < s.len() && s[i].key@ == k {
            let i = choose|i: int| 0 <= i < s.len() && s[i].key@ == k;
            if i < s.len() - 1 {
                assert(t[i].key@ == k);
            }
        }
    }
}

/// Distinct keys stay distinct when the last entry is dropped.
pub proof fn lemma_distinct_keys_drop_last(s: Seq<ContextEntry>)
    requires
        distinct_keys(s),
        s.len() > 0,
    ensures
        distinct_keys(s.drop_last()),
{
    let t = s.drop_last();
    assert forall|a: int, b: int| 0 <= a < b < t.len() implies t[a].key@ != t[b].key@ by {
        assert(t[a] == s[a] && t[b] == s[b]);
    }
}

/// With distinct keys, each entry's value is what the map holds under its key.
pub proof fn lemma_entries_map_lookup(s: Seq<ContextEntry>, i: int)
    requires
        distinct_keys(s),
        0 <= i < s.len(),
    ensures
        entries_map(s).contains_key(s[i].key@),
        entries_map(s)[s[i].key@] == s[i].value@,
    decreases s.len(),
{
    if i < s.len() - 1 {
        let t = s.drop_last();
        assert(t[i] == s[i]);
        lemma_distinct_keys_drop_last(s);
        lemma_entries_map_lookup(t, i);
    }
}

/// With distinct keys, replacing the value of one entry is an insertion under
/// that entry's key.
pub proof fn lemma_entries_map_replace(s: Seq<ContextEntry>, i: int, e: ContextEntry)
    requires
        distinct_keys(s),
        0 <= i < s.len(),
        e.key@ == s[i].key@,
    ensures
        entries_map(s.update(i, e)) == entries_map(s).insert(e.key@, e.value@),
        distinct_keys(s.update(i, e)),
    decreases s.len(),
{
    let u = s.update(i, e);
    let t = s.drop_last();
    assert(distinct_keys(u)) by {
        assert forall|a: int, b: int| 0 <= a < b < u.len() implies u[a].key@ != u[b].key@ by {
            assert(u[a].key@ == s[a].key@ && u[b].key@ == s[b].key@);
        }
    }
    if i == s.len() - 1 {
        assert(u.drop_last() =~= t);
        assert(entries_map(u) =~= entries_map(s).insert(e.key@, e.value@));
    } else {
        lemma_distinct_keys_drop_last(s);
        lemma_entries_map_replace(t, i, e);
        assert(u.drop_last() =~= t.update(i, e));
        assert(u.last() == s.last());
        assert(s[i].key@ != s[s.len() - 1].key@);
        assert(entries_map(u) =~= entries_map(s).insert(e.key@, e.value@));
    }
}

/// With distinct keys, the map holds as many keys as there are entries.
pub proof fn lemma_entries_map_len(s: Seq<ContextEntry>)
    requires
        distinct_keys(s),
    ensures
        entries_map(s).dom().finite(),
        entries_map(s).len() == s.len(),
    decreases s.len(),
{
    if s.len() > 0 {
        let t = s.drop_last();
        lemma_distinct_keys_drop_last(s);
        lemma_entries_map_len(t);
        lemma_entries_map_domain(t, s.last().key@);
        assert(!entries_map(t).contains_key(s.last().key@)) by {
            if entries_map(t).contains_key(s.last().key@) {
                let i = choose|i: int| 0 <= i < t.len() && t[i].key@ == s.last().key@;
                assert(s[i].key@ == s[s.len() - 1].key@);
            }
        }
        assert(entries_map(s).dom() =~= entries_map(t).dom().insert(s.last().key@));
    }
}

/// The answers collected so far, each under the key of the prompt that asked
/// for it. A key occurs at most once; storing under a key that is already
/// there replaces its answer.
#[derive(Clone, Debug)]
pub struct AnswerContext {
    entries: Vec<ContextEntry>,
}

impl View for AnswerContext {
    type V = Map<Seq<char>, AnswerValue>;

    open spec fn view(&self) -> Map<Seq<char>, AnswerValue> {
        entries_map(self.entries())
    }
}

impl AnswerContext {
    /// The context is well formed: no key occurs twice among its entries.
    pub open spec fn wf(&self) -> bool {
        distinct_keys(self.entries())
    }

    /// The entries behind the context, in the order in which their keys were
    /// first stored.
    pub closed spec fn entries(&self) -> Seq<ContextEntry> {
        self.entries@
    }

    /// A context with no answers.
    pub fn new() -> (context: AnswerContext)
        ensures
            context.wf(),
            context@ == Map::<Seq<char>, AnswerValue>::empty(),
    {
        AnswerContext { entries: Vec::new() }
    }

    /// The number of answers.
    pub fn len(&self) -> (n: usize)
        requires
            self.wf(),
        ensures
            n == self.entries().len(),
            n == self@.len(),
    {
        proof {
            lemma_entries_map_len(self.entries@);
        }
        self.entries.len()
    }

    /// The entry at position `i`.
    pub fn entry(&self, i: usize) -> (e: &ContextEntry)
        requires
            i < self.entries().len(),
        ensures
            *e == self.entries()[i as int],
    {
        &self.entries[i]
    }

    /// The position of `key` among the entries, if it is there.
    fn position(&self, key: &str) -> (found: Option<usize>)
        ensures
            match found {
                Some(i) => i < self.entries@.len() && self.entries@[i as int].key@ == key@,
                None => forall|i: int| 0 <= i < self.entries@.len() ==> self.entries@[i].key@ != key@,
            },
    {
        let mut i: usize = 0;
        while i < self.entries.len()
            invariant
                i <= self.entries@.len(),
                forall|j: int| 0 <= j < i ==> self.entries@[j].key@ != key@,
            decreases self.entries@.len() - i,
        {
            if same_text(self.entries[i].key.as_str(), key) {
                return Some(i);
            }
            i += 1;
        }
        None
    }

    /// Stores `value` under `key`, in place of whatever was stored there.
    pub fn insert(&mut self, key: String, value: ContextValue)
        requires
            old(self).wf(),
        ensures
            final(self).wf(),
            final(self)@ == old(self)@.insert(key@, value@),
    {
        let found = self.position(key.as_str());
        let entry = ContextEntry { key, value };
        match found {
            Some(i) => {
                proof {
                    lemma_entries_map_replace(self.entries@, i as int, entry);
                }
                self.entries.set(i, entry);
            },
            None => {
                proof {
                    let pushed = self.entries@.push(entry);
                    assert(pushed.drop_last() =~= self.entries@);
                    assert forall|a: int, b: int| 0 <= a < b < pushed.len() implies pushed[a].key@
                        != pushed[b].key@ by {
                        if b < self.entries@.len() {
                            assert(pushed[a] == self.entries@[a] && pushed[b] == self.entries@[b]);
                        } else {
                            assert(pushed[a] == self.entries@[a]);
                        }
                    }
                }
                self.entries.push(entry);
            },
        }
    }

    /// The answer stored under `key`, if there is one.
    pub fn get(&self, key: &str) -> (found: Option<&ContextValue>)
        requires
            self.wf(),
        ensures
            match found {
                Some(v) => self@.contains_key(key@) && v@ == self@[key@],
                None => !self@.contains_key(key@),
            },
    {
        proof {
            lemma_entries_map_domain(self.entries@, key@);
        }
        match self.position(key) {
            Some(i) => {
                proof {
                    lemma_entries_map_lookup(self.entries@, i as int);
                }
                Some(&self.entries[i].value)
            },
            None => None,
        }
    }
}

} // verus!
