//! The map of named circuit inputs, and the reserved return-value entry.
//!
//! Typed parsing and serialization of input files belong to the external ABI
//! library; the orchestrator only carries the parsed entries and moves the
//! circuit's return value in and out of the map. The return value travels
//! under one reserved name: it is merged among the named parameters when the
//! map is written to a file and separated out again when the file is read.
use vstd::prelude::*;

use crate::paths::clone_string;
use crate::paths::str_eq;

verus! {

/// A single input value, carried opaquely in its textual form: what it means
/// is the ABI library's business, never read here.
pub struct InputValue {
    pub text: String,
}

impl View for InputValue {
    type V = Seq<char>;

    open spec fn view(&self) -> Seq<char> {
        self.text@
    }
}

/// One named input.
pub struct InputEntry {
    pub name: String,
    pub value: InputValue,
}

impl View for InputEntry {
    type V = (Seq<char>, Seq<char>);

    open spec fn view(&self) -> (Seq<char>, Seq<char>) {
        (self.name@, self.value@)
    }
}

/// An ordered mapping from parameter names to input values.
pub struct InputMap {
    pub entries: Vec<InputEntry>,
}

impl View for InputMap {
    type V = Seq<(Seq<char>, Seq<char>)>;

    open spec fn view(&self) -> Seq<(Seq<char>, Seq<char>)> {
        Seq::new(self.entries@.len(), |i: int| self.entries@[i]@)
    }
}

/// The reserved name under which a circuit's return value travels.
pub open spec fn return_name() -> Seq<char> {
    "return"@
}

/// Whether some entry carries the given name.
pub open spec fn has_name(m: Seq<(Seq<char>, Seq<char>)>, name: Seq<char>) -> bool {
    exists|i: int| 0 <= i < m.len() && m[i].0 == name
}

/// The index of the first entry carrying the given name.
pub open spec fn first_with_name(m: Seq<(Seq<char>, Seq<char>)>, name: Seq<char>) -> int
    decreases m.len(),
{
    if m.len() == 0 {
        0
    } else if m[0].0 == name {
        0
    } else {
        1 + first_with_name(m.subrange(1, m.len() as int), name)
    }
}

/// What separating the return value out of a map yields: the map with every
/// reserved entry removed — so what goes on never carries the reserved name,
/// whatever the file held — and the first reserved entry's value, if one is
/// present.
pub open spec fn split_return_spec(m: Seq<(Seq<char>, Seq<char>)>) -> (
    Seq<(Seq<char>, Seq<char>)>,
    Option<Seq<char>>,
) {
    (
        m.filter(|e: (Seq<char>, Seq<char>)| e.0 != return_name()),
        if has_name(m, return_name()) {
            Some(m[first_with_name(m, return_name())].1)
        } else {
            None
        },
    )
}

/// What merging a return value into a map yields: the map itself when there
/// is none, otherwise the map with the reserved entry appended.
pub open spec fn merge_return_spec(
    m: Seq<(Seq<char>, Seq<char>)>,
    ret: Option<Seq<char>>,
) -> Seq<(Seq<char>, Seq<char>)> {
    match ret {
        Some(v) => m.push((return_name(), v)),
        None => m,
    }
}

/// A map none of whose entries carries the reserved name passes the filter
/// whole.
proof fn lemma_filter_without_reserved(m: Seq<(Seq<char>, Seq<char>)>)
    requires
        forall|i: int| 0 <= i < m.len() ==> m[i].0 != return_name(),
    ensures
        m.filter(|e: (Seq<char>, Seq<char>)| e.0 != return_name()) == m,
    decreases m.len(),
{
    reveal_with_fuel(Seq::<(Seq<char>, Seq<char>)>::filter, 2);
    if m.len() == 0 {
    } else {
        let prefix = m.drop_last();
        lemma_filter_without_reserved(prefix);
        assert(prefix.push(m.last()) =~= m);
    }
}

/// A name found at index `i`, with no earlier occurrence, is the first one.
proof fn lemma_first_with_name_at(m: Seq<(Seq<char>, Seq<char>)>, name: Seq<char>, i: int)
    requires
        0 <= i < m.len(),
        m[i].0 == name,
        forall|j: int| 0 <= j < i ==> m[j].0 != name,
    ensures
        has_name(m, name),
        first_with_name(m, name) == i,
    decreases i,
{
    if i == 0 {
    } else {
        lemma_first_with_name_at(m.subrange(1, m.len() as int), name, i - 1);
    }
}

impl InputMap {
    /// The empty map.
    pub fn new() -> (r: InputMap)
        ensures
            r@ == Seq::<(Seq<char>, Seq<char>)>::empty(),
    {
        let r = InputMap { entries: Vec::new() };
        proof {
            assert(r@ =~= Seq::<(Seq<char>, Seq<char>)>::empty());
        }
        r
    }

    /// A copy of the map, entry for entry.
    pub fn duplicate(&self) -> (r: InputMap)
        ensures
            r@ == self@,
    {
        let mut entries: Vec<InputEntry> = Vec::new();
        let mut i: usize = 0;
        while i < self.entries.len()
            invariant
                i <= self.entries@.len(),
                entries@.len() == i,
                forall|j: int| 0 <= j < i ==> entries@[j]@ == self.entries@[j]@,
            decreases self.entries@.len() - i,
        {
            let e = InputEntry {
                name: clone_string(&self.entries[i].name),
                value: InputValue { text: clone_string(&self.entries[i].value.text) },
            };
            entries.push(e);
            i += 1;
        }
        let r = InputMap { entries };
        proof {
            assert(r@ =~= self@);
        }
        r
    }

    /// Separates the return value out: removes every entry carrying the
    /// reserved name — so the rest never holds it, whatever the file held —
    /// and hands the first such entry's value back beside the rest.
    pub fn split_return(&self) -> (r: (InputMap, Option<InputValue>))
        ensures
            r.0@ == split_return_spec(self@).0,
            match r.1 {
                Some(v) => split_return_spec(self@).1 == Some(v@),
                None => split_return_spec(self@).1 is None,
            },
    {
        let ghost m = self@;
        let len: usize = self.entries.len();
        let mut entries: Vec<InputEntry> = Vec::new();
        let mut value: Option<InputValue> = None;
        proof {
            reveal_with_fuel(Seq::<(Seq<char>, Seq<char>)>::filter, 2);
            assert(Seq::new(entries@.len(), |k: int| entries@[k]@) =~= m.subrange(0, 0).filter(
                |e: (Seq<char>, Seq<char>)| e.0 != return_name(),
            ));
        }
        let mut i: usize = 0;
        while i < len
            invariant
                m == self@,
                i <= len,
                len == self.entries@.len(),
                Seq::new(entries@.len(), |k: int| entries@[k]@) == m.subrange(0, i as int).filter(
                    |e: (Seq<char>, Seq<char>)| e.0 != return_name(),
                ),
                match value {
                    Some(v) => has_name(m, return_name()) && v@ == m[first_with_name(
                        m,
                        return_name(),
                    )].1,
                    None => forall|j: int| 0 <= j < i ==> m[j].0 != return_name(),
                },
            decreases len - i,
        {
            let ghost prefix = m.subrange(0, i as int);
            let ghost next = m.subrange(0, i as int + 1);
            if str_eq(self.entries[i].name.as_str(), "return") {
                if value.is_none() {
                    proof {
                        lemma_first_with_name_at(m, return_name(), i as int);
                    }
                    value = Some(InputValue { text: clone_string(&self.entries[i].value.text) });
                }
            } else {
                let e = InputEntry {
                    name: clone_string(&self.entries[i].name),
                    value: InputValue { text: clone_string(&self.entries[i].value.text) },
                };
                entries.push(e);
            }
            proof {
                reveal_with_fuel(Seq::<(Seq<char>, Seq<char>)>::filter, 2);
                assert(next.drop_last() =~= prefix);
                assert(next.last() == m[i as int]);
                if m[i as int].0 == return_name() {
                    assert(next.filter(|e: (Seq<char>, Seq<char>)| e.0 != return_name())
                        == prefix.filter(|e: (Seq<char>, Seq<char>)| e.0 != return_name()));
                } else {
                    assert(next.filter(|e: (Seq<char>, Seq<char>)| e.0 != return_name())
                        == prefix.filter(|e: (Seq<char>, Seq<char>)| e.0 != return_name()).push(
                        m[i as int],
                    ));
                }
                assert(Seq::new(entries@.len(), |k: int| entries@[k]@) =~= next.filter(
                    |e: (Seq<char>, Seq<char>)| e.0 != return_name(),
                ));
            }
            i += 1;
        }
        let out = InputMap { entries };
        proof {
            assert(m.subrange(0, len as int) =~= m);
            assert(out@ =~= m.filter(|e: (Seq<char>, Seq<char>)| e.0 != return_name()));
            if value is None {
                assert(!has_name(m, return_name()));
            }
        }
        (out, value)
    }

    /// Merges a return value in: appends it under the reserved name, leaving
    /// the map alone when there is none. The map itself is not consumed,
    /// since its caller goes on using the separate parts.
    pub fn merge_return(&self, ret: &Option<InputValue>) -> (r: InputMap)
        ensures
            r@ == merge_return_spec(
                self@,
                match ret {
                    Some(v) => Some(v@),
                    None => None,
                },
            ),
    {
        let mut r = self.duplicate();
        match ret {
            Some(v) => {
                let e = InputEntry {
                    name: String::from_str("return"),
                    value: InputValue { text: clone_string(&v.text) },
                };
                let ghost before = r@;
                r.entries.push(e);
                proof {
                    assert(r@ =~= before.push((return_name(), v@)));
                }
                r
            },
            None => r,
        }
    }
}

/// Writing inputs merges the return value under the reserved name among the
/// named parameters; reading them back separates it out again, leaving both
/// the parameters and the return value unchanged.
pub proof fn lemma_return_value_round_trip(m: Seq<(Seq<char>, Seq<char>)>, v: Seq<char>)
    requires
        !has_name(m, return_name()),
    ensures
        split_return_spec(merge_return_spec(m, Some(v))).0 == m,
        split_return_spec(merge_return_spec(m, Some(v))).1 == Some(v),
{
    let merged = m.push((return_name(), v));
    assert(merged[m.len() as int].0 == return_name());
    assert(forall|j: int| 0 <= j < m.len() ==> merged[j] == m[j]);
    lemma_first_with_name_at(merged, return_name(), m.len() as int);
    reveal_with_fuel(Seq::<(Seq<char>, Seq<char>)>::filter, 2);
    assert(merged.drop_last() =~= m);
    assert(merged.filter(|e: (Seq<char>, Seq<char>)| e.0 != return_name()) == m.filter(
        |e: (Seq<char>, Seq<char>)| e.0 != return_name(),
    ));
    lemma_filter_without_reserved(m);
}

} // verus!
