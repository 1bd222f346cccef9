use vstd::prelude::*;
use crate::error::{HookError, ValueKind};
use crate::script::{ScriptValue, rhai_to_liquid_value, unsupported_name, converts_to, items_convert};
use crate::value::{VarValue, value_text, json_string_literal, json_quote};

verus! {

/// The map that a sequence of entries stands for; a later entry for a name
/// hides an earlier one.
pub open spec fn entries_map(s: Seq<(String, VarValue)>) -> Map<Seq<char>, VarValue>
    decreases s.len(),
{
    if s.len() == 0 {
        Map::empty()
    } else {
        entries_map(s.drop_last()).insert(s.last().0@, s.last().1)
    }
}

/// No two entries have the same name.
pub open spec fn names_unique(s: Seq<(String, VarValue)>) -> bool {
    forall|i: int, j: int| 0 <= i < j < s.len() ==> s[i].0@ != s[j].0@
}

/// The kind of a value.
pub open spec fn kind_of(v: VarValue) -> ValueKind {
    match v {
        VarValue::Bool(_) => ValueKind::Bool,
        VarValue::Str(_) => ValueKind::Str,
        VarValue::List(_) => ValueKind::List,
    }
}

/// Whether a write of a value of kind `kind` to `name` is accepted: a list
/// only where the name is unset, a boolean or a string also where the name
/// already holds a value of that kind.
pub open spec fn accepts(m: Map<Seq<char>, VarValue>, name: Seq<char>, kind: ValueKind) -> bool {
    match kind {
        ValueKind::List => !m.contains_key(name),
        _ => !m.contains_key(name) || kind_of(m[name]) == kind,
    }
}

/// `e` is the refusal of a write of kind `kind` to `name`.
pub open spec fn is_mismatch(e: HookError, name: Seq<char>, kind: ValueKind) -> bool {
    e is TypeMismatch && e->TypeMismatch_name@ == name && e->TypeMismatch_expected == kind
}

/// The stored value of `name`, if any.
pub open spec fn lookup(m: Map<Seq<char>, VarValue>, name: Seq<char>) -> Option<VarValue> {
    if m.contains_key(name) {
        Some(m[name])
    } else {
        None
    }
}

/// What a lookup of a variable gives.
#[derive(Debug)]
pub enum NamedValue {
    NonExistent,
    Bool(bool),
    String(String),
}

/// `r` is what a lookup gives for the stored value `v`: strings as they are,
/// lists as their text.
pub open spec fn named_value_of(v: Option<VarValue>, r: NamedValue) -> bool {
    match v {
        None => r is NonExistent,
        Some(VarValue::Bool(b)) => r == NamedValue::Bool(b),
        Some(VarValue::Str(s)) => r is String && r->String_0@ == s@,
        Some(VarValue::List(items)) => r is String && r->String_0@ == value_text(
            VarValue::List(items),
        ),
    }
}

proof fn lemma_map_has(s: Seq<(String, VarValue)>, i: int)
    requires
        names_unique(s),
        0 <= i < s.len(),
    ensures
        entries_map(s).contains_key(s[i].0@),
        entries_map(s)[s[i].0@] == s[i].1,
    decreases s.len(),
{
    if i < s.len() - 1 {
        lemma_map_has(s.drop_last(), i);
    }
}

proof fn lemma_map_lacks(s: Seq<(String, VarValue)>, k: Seq<char>)
    requires
        forall|i: int| 0 <= i < s.len() ==> s[i].0@ != k,
    ensures
        !entries_map(s).contains_key(k),
    decreases s.len(),
{
    if s.len() > 0 {
        lemma_map_lacks(s.drop_last(), k);
    }
}

proof fn lemma_map_update(s: Seq<(String, VarValue)>, i: int, e: (String, VarValue))
    requires
        names_unique(s),
        0 <= i < s.len(),
        s[i].0@ == e.0@,
    ensures
        entries_map(s.update(i, e)) == entries_map(s).insert(e.0@, e.1),
        names_unique(s.update(i, e)),
    decreases s.len(),
{
    let t = s.update(i, e);
    if i == s.len() - 1 {
        assert(t.drop_last() =~= s.drop_last());
        assert(entries_map(t) =~= entries_map(s).insert(e.0@, e.1));
    } else {
        lemma_map_update(s.drop_last(), i, e);
        assert(t.drop_last() =~= s.drop_last().update(i, e));
        assert(entries_map(t) =~= entries_map(s).insert(e.0@, e.1));
    }
}

/// The JSON text of the first `n` entries as members of an object.
pub open spec fn members_text(s: Seq<(String, VarValue)>, n: nat) -> Seq<char>
    decreases n,
{
    if n == 0 || n > s.len() {
        Seq::empty()
    } else {
        let member = json_string_literal(s[n - 1].0@) + ":"@ + value_text(s[n - 1].1);
        if n == 1 {
            member
        } else {
            members_text(s, (n - 1) as nat) + ","@ + member
        }
    }
}

/// The compact JSON text of the object whose members are the entries, in
/// their order.
pub open spec fn object_text(s: Seq<(String, VarValue)>) -> Seq<char> {
    "{"@ + members_text(s, s.len()) + "}"@
}

/// The store of named variables shared by a generation run. Its values are
/// this library's own `VarValue`, which a `serde_json::Map` cannot hold, so
/// the entries stand in a vector, one per name, in the order in which the
/// names were first set.
#[derive(Debug)]
pub struct VariableContext {
    entries: Vec<(String, VarValue)>,
}

impl View for VariableContext {
    type V = Map<Seq<char>, VarValue>;

    closed spec fn view(&self) -> Map<Seq<char>, VarValue> {
        entries_map(self.entries@)
    }
}

impl VariableContext {
    /// Well-formedness: each name has one entry.
    pub closed spec fn wf(&self) -> bool {
        names_unique(self.entries@)
    }

    /// The entries in the order in which their names were first set.
    pub closed spec fn entry_seq(&self) -> Seq<(String, VarValue)> {
        self.entries@
    }

    /// The map is the one that the entries stand for.
    pub proof fn lemma_view_is_entries(&self)
        ensures
            self@ == entries_map(self.entry_seq()),
    {
    }

    /// An empty store.
    pub fn new() -> (r: Self)
        ensures
            r.wf(),
            r@ == Map::<Seq<char>, VarValue>::empty(),
    {
        VariableContext { entries: Vec::new() }
    }

    fn find(&self, name: &String) -> (r: Option<usize>)
        requires
            self.wf(),
        ensures
            match r {
                Some(i) => i < self.entries.len() && self.entries@[i as int].0@ == name@,
                None => forall|i: int|
                    0 <= i < self.entries.len() ==> self.entries@[i].0@ != name@,
            },
    {
        let mut i: usize = 0;
        while i < self.entries.len()
            invariant
                i <= self.entries.len(),
                forall|j: int| 0 <= j < i ==> self.entries@[j].0@ != name@,
            decreases self.entries.len() - i,
        {
            if self.entries[i].0 == *name {
                return Some(i);
            }
            i = i + 1;
        }
        None
    }

    /// Sets `name` to `v`, whatever it held before.
    fn store(&mut self, name: String, v: VarValue)
        requires
            old(self).wf(),
        ensures
            final(self).wf(),
            final(self)@ == old(self)@.insert(name@, v),
    {
        match self.find(&name) {
            Some(i) => {
                proof {
                    lemma_map_update(self.entries@, i as int, (name, v));
                }
                self.entries.set(i, (name, v));
            },
            None => {
                let ghost before = self.entries@;
                self.entries.push((name, v));
                proof {
                    assert(self.entries@.drop_last() =~= before);
                }
            },
        }
    }

    /// Sets `name` to `v` whatever it held before, as the run itself does
    /// for the variables it derives.
    pub(crate) fn put(&mut self, name: &str, v: VarValue)
        requires
            old(self).wf(),
        ensures
            final(self).wf(),
            final(self)@ == old(self)@.insert(name@, v),
    {
        self.store(String::from_str(name), v);
    }

    /// The stored value of `name`, if any.
    fn lookup(&self, name: &String) -> (r: Option<&VarValue>)
        requires
            self.wf(),
        ensures
            match r {
                Some(v) => self@.contains_key(name@) && self@[name@] == *v,
                None => !self@.contains_key(name@),
            },
    {
        match self.find(name) {
            Some(i) => {
                proof {
                    lemma_map_has(self.entries@, i as int);
                }
                Some(&self.entries[i].1)
            },
            None => {
                proof {
                    lemma_map_lacks(self.entries@, name@);
                }
                None
            },
        }
    }

    /// The stored value of `name`, if any.
    pub fn get(&self, name: &str) -> (r: Option<&VarValue>)
        requires
            self.wf(),
        ensures
            match r {
                Some(v) => lookup(self@, name@) == Some(*v),
                None => lookup(self@, name@) is None,
            },
    {
        let key = String::from_str(name);
        self.lookup(&key)
    }

    /// The store as the text of a JSON object, one member per variable.
    pub fn to_json(&self) -> (r: String)
        ensures
            r@ == object_text(self.entry_seq()),
    {
        let mut r = String::from_str("{");
        let mut i: usize = 0;
        while i < self.entries.len()
            invariant
                i <= self.entries.len(),
                r@ == "{"@ + members_text(self.entries@, i as nat),
            decreases self.entries.len() - i,
        {
            if i > 0 {
                r.append(",");
            }
            let k = json_quote(self.entries[i].0.as_str());
            r.append(k.as_str());
            r.append(":");
            let t = self.entries[i].1.text();
            r.append(t.as_str());
            i = i + 1;
            proof {
                assert(r@ =~= "{"@ + members_text(self.entries@, i as nat));
            }
        }
        r.append("}");
        r
    }

    /// Whether `name` is set.
    pub fn is_set(&self, name: &str) -> (r: bool)
        requires
            self.wf(),
        ensures
            r == self@.contains_key(name@),
    {
        let key = String::from_str(name);
        self.lookup(&key).is_some()
    }

    /// Looks `name` up: a boolean as it is, a string as it is, and a list as
    /// its text, so that a reader never has to handle a composite value.
    pub fn get_value(&self, name: &str) -> (r: NamedValue)
        requires
            self.wf(),
        ensures
            named_value_of(lookup(self@, name@), r),
    {
        let key = String::from_str(name);
        match self.lookup(&key) {
            None => NamedValue::NonExistent,
            Some(VarValue::Bool(b)) => NamedValue::Bool(*b),
            Some(VarValue::Str(s)) => NamedValue::String(s.clone()),
            Some(v) => NamedValue::String(v.text()),
        }
    }

    /// Sets a string variable. Succeeds where `name` is unset or holds a
    /// string; otherwise fails with `TypeMismatch` and changes nothing.
    pub fn set_string(&mut self, name: &str, value: String) -> (r: Result<(), HookError>)
        requires
            old(self).wf(),
        ensures
            final(self).wf(),
            r is Ok <==> accepts(old(self)@, name@, ValueKind::Str),
            r is Ok ==> final(self)@ == old(self)@.insert(name@, VarValue::Str(value)),
            r is Err ==> final(self)@ == old(self)@ && is_mismatch(r->Err_0, name@, ValueKind::Str),
    {
        let key = String::from_str(name);
        let fits = match self.lookup(&key) {
            None => true,
            Some(VarValue::Str(_)) => true,
            Some(_) => false,
        };
        if fits {
            self.store(key, VarValue::Str(value));
            Ok(())
        } else {
            Err(HookError::TypeMismatch { name: key, expected: ValueKind::Str })
        }
    }

    /// Sets a boolean variable. Succeeds where `name` is unset or holds a
    /// boolean; otherwise fails with `TypeMismatch` and changes nothing.
    pub fn set_bool(&mut self, name: &str, value: bool) -> (r: Result<(), HookError>)
        requires
            old(self).wf(),
        ensures
            final(self).wf(),
            r is Ok <==> accepts(old(self)@, name@, ValueKind::Bool),
            r is Ok ==> final(self)@ == old(self)@.insert(name@, VarValue::Bool(value)),
            r is Err ==> final(self)@ == old(self)@ && is_mismatch(r->Err_0, name@, ValueKind::Bool),
    {
        let key = String::from_str(name);
        let fits = match self.lookup(&key) {
            None => true,
            Some(VarValue::Bool(_)) => true,
            Some(_) => false,
        };
        if fits {
            self.store(key, VarValue::Bool(value));
            Ok(())
        } else {
            Err(HookError::TypeMismatch { name: key, expected: ValueKind::Bool })
        }
    }

    /// Sets a list variable from script values. Succeeds only where `name` is
    /// unset and every value inside the list is a boolean, a string or a list;
    /// a set name fails with `TypeMismatch`, an unsupported value with
    /// `UnsupportedType`. On failure nothing changes.
    pub fn set_list(&mut self, name: &str, items: Vec<ScriptValue>) -> (r: Result<(), HookError>)
        requires
            old(self).wf(),
        ensures
            final(self).wf(),
            r is Ok <==> accepts(old(self)@, name@, ValueKind::List) && unsupported_name(
                ScriptValue::List(items),
            ) is None,
            r is Ok ==> final(self)@ == old(self)@.insert(name@, final(self)@[name@]) && converts_to(
                ScriptValue::List(items),
                final(self)@[name@],
            ),
            !accepts(old(self)@, name@, ValueKind::List) ==> r is Err && is_mismatch(
                r->Err_0,
                name@,
                ValueKind::List,
            ),
            accepts(old(self)@, name@, ValueKind::List) ==> match unsupported_name(
                ScriptValue::List(items),
            ) {
                Some(n) => r == Err::<(), HookError>(HookError::UnsupportedType { found: n }),
                None => true,
            },
            r is Err ==> final(self)@ == old(self)@,
    {
        let key = String::from_str(name);
        if self.lookup(&key).is_some() {
            return Err(HookError::TypeMismatch { name: key, expected: ValueKind::List });
        }
        let list = ScriptValue::List(items);
        match rhai_to_liquid_value(&list) {
            Ok(v) => {
                self.store(key, v);
                Ok(())
            },
            Err(e) => Err(e),
        }
    }
}

proof fn lemma_items_convert_each(xs: Vec<ScriptValue>, ys: Seq<VarValue>, n: nat)
    requires
        items_convert(xs, ys, n),
    ensures
        forall|i: int| 0 <= i < n ==> #[trigger] converts_to(xs@[i], ys[i]),
    decreases n,
{
    if n > 0 {
        lemma_items_convert_each(xs, ys, (n - 1) as nat);
    }
}

/// A string that a store accepts is what a lookup of its name then gives.
pub proof fn law_string_set_then_get(
    m: Map<Seq<char>, VarValue>,
    name: Seq<char>,
    value: String,
    r: NamedValue,
)
    requires
        accepts(m, name, ValueKind::Str),
        named_value_of(lookup(m.insert(name, VarValue::Str(value)), name), r),
    ensures
        r is String && r->String_0@ == value@,
{
}

/// A boolean that a store accepts is what a lookup of its name then gives.
pub proof fn law_bool_set_then_get(
    m: Map<Seq<char>, VarValue>,
    name: Seq<char>,
    value: bool,
    r: NamedValue,
)
    requires
        accepts(m, name, ValueKind::Bool),
        named_value_of(lookup(m.insert(name, VarValue::Bool(value)), name), r),
    ensures
        r == NamedValue::Bool(value),
{
}

/// A list that a store accepts is stored as a list of as many values, each
/// the conversion of the script value at the same place, and a lookup of its
/// name gives the text of that list.
pub proof fn law_list_set_then_get(
    m: Map<Seq<char>, VarValue>,
    name: Seq<char>,
    items: Vec<ScriptValue>,
    v: VarValue,
    r: NamedValue,
)
    requires
        accepts(m, name, ValueKind::List),
        unsupported_name(ScriptValue::List(items)) is None,
        converts_to(ScriptValue::List(items), v),
        named_value_of(lookup(m.insert(name, v), name), r),
    ensures
        v is List,
        v->List_0.len() == items.len(),
        forall|i: int| 0 <= i < items.len() ==> #[trigger] converts_to(items@[i], v->List_0@[i]),
        r is String && r->String_0@ == value_text(v),
{
    lemma_items_convert_each(items, v->List_0@, items.len() as nat);
}

/// A variable that holds a string refuses a boolean, and one that holds a
/// boolean refuses a string.
pub proof fn law_kind_is_kept(m: Map<Seq<char>, VarValue>, name: Seq<char>, s: String, b: bool)
    ensures
        !accepts(m.insert(name, VarValue::Str(s)), name, ValueKind::Bool),
        !accepts(m.insert(name, VarValue::Bool(b)), name, ValueKind::Str),
{
}

/// A variable that is set refuses a list, whatever value it holds.
pub proof fn law_list_set_once(m: Map<Seq<char>, VarValue>, name: Seq<char>, v: VarValue)
    ensures
        !accepts(m.insert(name, v), name, ValueKind::List),
{
}

} // verus!
