//! A snapshot of the process environment, as plain values.
//!
//! The loader itself never touches process state: the caller reads
//! the environment once, records each variable as text or as raw
//! non-text bytes, and hands the snapshot in.  Looking a name up
//! yields the tri-state [`RawLookupResult`] the converter works on.
//! When two entries carry the same name the first one wins, so a
//! caller building a snapshot should record each name once.

use vstd::prelude::*;

use crate::convert::{RawLookupResult, RawLookupView};

verus! {

/// The recorded value of one present environment variable: valid text,
/// or raw bytes that are not valid text.
#[derive(Clone, Debug, PartialEq, Eq)]
pub enum EnvValue {
    Text(String),
    NonText(Vec<u8>),
}

impl View for EnvValue {
    type V = RawLookupView;

    open spec fn view(&self) -> RawLookupView {
        match self {
            EnvValue::Text(s) => RawLookupView::Text(s@),
            EnvValue::NonText(b) => RawLookupView::NonText(b@),
        }
    }
}

/// One recorded variable: a name and its value.
#[derive(Clone, Debug, PartialEq, Eq)]
pub struct EnvEntry {
    pub name: String,
    pub value: EnvValue,
}

impl View for EnvEntry {
    type V = (Seq<char>, RawLookupView);

    open spec fn view(&self) -> (Seq<char>, RawLookupView) {
        (self.name@, self.value@)
    }
}

/// What looking a name up in a recorded environment yields: the value
/// of the first entry carrying the name, or absence.
pub open spec fn spec_env_lookup(
    env: Seq<(Seq<char>, RawLookupView)>,
    name: Seq<char>,
) -> RawLookupView
    decreases env.len(),
{
    if env.len() == 0 {
        RawLookupView::Absent
    } else if env[0].0 == name {
        env[0].1
    } else {
        spec_env_lookup(env.drop_first(), name)
    }
}

/// A recorded environment: a sequence of name/value entries.
#[derive(Clone, Debug, PartialEq, Eq)]
pub struct Environment {
    pub entries: Vec<EnvEntry>,
}

impl View for Environment {
    type V = Seq<(Seq<char>, RawLookupView)>;

    open spec fn view(&self) -> Seq<(Seq<char>, RawLookupView)> {
        self.entries@.map_values(|e: EnvEntry| e@)
    }
}

fn copy_bytes(v: &Vec<u8>) -> (r: Vec<u8>)
    ensures
        r@ == v@,
{
    let mut r: Vec<u8> = Vec::new();
    let mut i: usize = 0;
    while i < v.len()
        invariant
            i <= v@.len(),
            r@ == v@.take(i as int),
        decreases v@.len() - i,
    {
        r.push(v[i]);
        proof {
            assert(v@.take(i as int).push(v@[i as int]) =~= v@.take(i + 1));
        }
        i = i + 1;
    }
    proof {
        assert(v@.take(v@.len() as int) =~= v@);
    }
    r
}

impl Environment {
    /// An empty snapshot: every lookup is absent.
    pub fn new() -> (r: Environment)
        ensures
            r@ == Seq::<(Seq<char>, RawLookupView)>::empty(),
    {
        let r = Environment { entries: Vec::new() };
        proof {
            assert(r@ =~= Seq::<(Seq<char>, RawLookupView)>::empty());
        }
        r
    }

    /// Record a variable whose value is valid text.
    pub fn record_text(&mut self, name: String, value: String)
        ensures
            final(self)@ == old(self)@.push((name@, RawLookupView::Text(value@))),
    {
        let ghost before = self@;
        let ghost entry_view = (name@, RawLookupView::Text(value@));
        self.entries.push(EnvEntry { name: name, value: EnvValue::Text(value) });
        proof {
            assert(self@ =~= before.push(entry_view));
        }
    }

    /// Record a variable whose raw value is not valid text.
    pub fn record_non_text(&mut self, name: String, raw_value: Vec<u8>)
        ensures
            final(self)@ == old(self)@.push((name@, RawLookupView::NonText(raw_value@))),
    {
        let ghost before = self@;
        let ghost entry_view = (name@, RawLookupView::NonText(raw_value@));
        self.entries.push(EnvEntry { name: name, value: EnvValue::NonText(raw_value) });
        proof {
            assert(self@ =~= before.push(entry_view));
        }
    }

    /// Look one variable up: the first entry with the name, or absence.
    pub fn lookup(&self, name: &String) -> (r: RawLookupResult)
        ensures
            r@ == spec_env_lookup(self@, name@),
    {
        proof {
            assert(self@.skip(0) =~= self@);
        }
        let mut i: usize = 0;
        while i < self.entries.len()
            invariant
                i <= self.entries@.len(),
                self@.len() == self.entries@.len(),
                spec_env_lookup(self@, name@) == spec_env_lookup(self@.skip(i as int), name@),
                forall|j: int| 0 <= j < self@.len() ==> self@[j] == self.entries@[j]@,
            decreases self.entries@.len() - i,
        {
            if self.entries[i].name == *name {
                proof {
                    assert(self@.skip(i as int)[0] == self@[i as int]);
                    assert(self@[i as int].0 == name@);
                }
                let r = match &self.entries[i].value {
                    EnvValue::Text(s) => RawLookupResult::Text { value: s.clone() },
                    EnvValue::NonText(b) => RawLookupResult::NonText { raw_value: copy_bytes(b) },
                };
                proof {
                    assert(spec_env_lookup(self@.skip(i as int), name@) == self@[i as int].1);
                }
                return r;
            }
            proof {
                assert(self@.skip(i as int)[0] == self@[i as int]);
                assert(self@[i as int].0 != name@);
                assert(self@.skip(i as int).drop_first() =~= self@.skip(i + 1));
            }
            i = i + 1;
        }
        proof {
            assert(self@.skip(self@.len() as int) =~= Seq::<
                (Seq<char>, RawLookupView),
            >::empty());
        }
        RawLookupResult::Absent
    }
}

} // verus!
