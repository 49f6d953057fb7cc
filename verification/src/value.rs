//! Dynamic values: the untyped interchange format at the engine's boundary.

use vstd::prelude::*;

verus! {

/// A number of the engine. A whole number is carried as such; any other
/// number is carried by the bit pattern of its IEEE-754 double.
#[derive(Clone, Copy, Debug, PartialEq, Eq, Structural)]
pub enum Number {
    Int(i64),
    Bits(u64),
}

/// The mathematical model of a dynamic value.
pub ghost enum Value {
    Undefined,
    Bool(bool),
    Num(Number),
    Str(Seq<char>),
    List(Seq<Value>),
    Record(Seq<(Seq<char>, Value)>),
}

/// The model of a dynamic record: its entries, in order.
pub type Entries = Seq<(Seq<char>, Value)>;

/// A dynamic value as it is handed to the engine or comes back from it.
#[derive(Debug, PartialEq)]
pub enum DynValue {
    Undefined,
    Bool(bool),
    Num(Number),
    Str(String),
    List(Vec<DynValue>),
    Record(DynRecord),
}

/// An ordered mapping from string keys to dynamic values. A record that is
/// built by `new`, `set`, `set_opt` and `assign` holds no key twice.
#[derive(Debug, PartialEq)]
pub struct DynRecord {
    pub entries: Vec<(String, DynValue)>,
}

/// The model of a list of values.
pub open spec fn list_view(items: Seq<DynValue>) -> Seq<Value>
    decreases items,
{
    Seq::new(
        items.len(),
        |i: int| if 0 <= i < items.len() { value_view(items[i]) } else { Value::Undefined },
    )
}

/// The model of the entries of a record.
pub open spec fn entries_view(entries: Seq<(String, DynValue)>) -> Entries
    decreases entries,
{
    Seq::new(
        entries.len(),
        |i: int|
            if 0 <= i < entries.len() {
                (entries[i].0@, value_view(entries[i].1))
            } else {
                (Seq::empty(), Value::Undefined)
            },
    )
}

/// The model of a value.
pub open spec fn value_view(v: DynValue) -> Value
    decreases v,
{
    match v {
        DynValue::Undefined => Value::Undefined,
        DynValue::Bool(b) => Value::Bool(b),
        DynValue::Num(n) => Value::Num(n),
        DynValue::Str(s) => Value::Str(s@),
        DynValue::List(items) => Value::List(list_view(items@)),
        DynValue::Record(r) => Value::Record(entries_view(r.entries@)),
    }
}

impl View for DynValue {
    type V = Value;

    open spec fn view(&self) -> Value {
        value_view(*self)
    }
}

impl View for DynRecord {
    type V = Entries;

    open spec fn view(&self) -> Entries {
        entries_view(self.entries@)
    }
}

/// True where some entry of `r` has the key `k`.
pub open spec fn has_key(r: Entries, k: Seq<char>) -> bool {
    exists|i: int| 0 <= i < r.len() && #[trigger] r[i].0 == k
}

/// True where `i` is the place of the first entry of `r` with the key `k`.
pub open spec fn is_first(r: Entries, k: Seq<char>, i: int) -> bool {
    &&& 0 <= i < r.len()
    &&& r[i].0 == k
    &&& forall|j: int| 0 <= j < i ==> #[trigger] r[j].0 != k
}

/// The place of the first entry with the key `k`, if there is one.
pub open spec fn position(r: Entries, k: Seq<char>) -> Option<int> {
    if has_key(r, k) {
        Some(choose|i: int| is_first(r, k, i))
    } else {
        None
    }
}

/// The value that `r` maps `k` to, if it maps it to any.
pub open spec fn lookup(r: Entries, k: Seq<char>) -> Option<Value> {
    match position(r, k) {
        Some(i) => Some(r[i].1),
        None => None,
    }
}

/// No key occurs twice: the record is a mapping.
pub open spec fn distinct_keys(r: Entries) -> bool {
    forall|i: int, j: int| 0 <= i < j < r.len() ==> #[trigger] r[i].0 != #[trigger] r[j].0
}

/// `r` with `k` mapped to `v`: a key that is there keeps its place, a new one
/// goes to the end.
pub open spec fn rec_set(r: Entries, k: Seq<char>, v: Value) -> Entries {
    match position(r, k) {
        Some(i) => r.update(i, (k, v)),
        None => r.push((k, v)),
    }
}

/// `a` with every entry of `b` set in turn, so that `b` wins where both
/// define a key.
pub open spec fn rec_assign(a: Entries, b: Entries) -> Entries
    decreases b.len(),
{
    if b.len() == 0 {
        a
    } else {
        rec_set(rec_assign(a, b.drop_last()), b.last().0, b.last().1)
    }
}

/// `r` with an optional field set: a field without a value leaves `r` as it is.
pub open spec fn with_opt(r: Entries, k: Seq<char>, v: Option<Value>) -> Entries {
    match v {
        Some(v) => rec_set(r, k, v),
        None => r,
    }
}

/// A key has at most one first place.
pub proof fn lemma_first_unique(r: Entries, k: Seq<char>, i: int, j: int)
    requires
        is_first(r, k, i),
        is_first(r, k, j),
    ensures
        i == j,
{
    if i < j {
        assert(r[i].0 == k);
    } else if j < i {
        assert(r[j].0 == k);
    }
}

/// Where a key occurs, `position` is its first place.
pub proof fn lemma_position(r: Entries, k: Seq<char>)
    ensures
        match position(r, k) {
            Some(i) => is_first(r, k, i),
            None => forall|j: int| 0 <= j < r.len() ==> #[trigger] r[j].0 != k,
        },
{
    if has_key(r, k) {
        let w = choose|i: int| 0 <= i < r.len() && #[trigger] r[i].0 == k;
        lemma_has_first(r, k, w);
    }
}

proof fn lemma_has_first(r: Entries, k: Seq<char>, w: int)
    requires
        0 <= w < r.len(),
        r[w].0 == k,
    ensures
        exists|i: int| is_first(r, k, i),
    decreases w,
{
    if exists|j: int| 0 <= j < w && #[trigger] r[j].0 == k {
        let j = choose|j: int| 0 <= j < w && #[trigger] r[j].0 == k;
        lemma_has_first(r, k, j);
    } else {
        assert(is_first(r, k, w));
    }
}

/// After `k` is set to `v`, `k` maps to `v` and every other key maps to what
/// it mapped to before.
pub proof fn lemma_set_lookup(r: Entries, k: Seq<char>, v: Value, q: Seq<char>)
    ensures
        lookup(rec_set(r, k, v), q) == if q == k { Some(v) } else { lookup(r, q) },
        has_key(rec_set(r, k, v), q) == (q == k || has_key(r, q)),
        distinct_keys(r) ==> distinct_keys(rec_set(r, k, v)),
        rec_set(r, k, v).len() == if has_key(r, k) { r.len() } else { r.len() + 1 },
{
    let s = rec_set(r, k, v);
    lemma_position(r, k);
    lemma_position(r, q);
    lemma_position(s, q);
    match position(r, k) {
        Some(i) => {
            assert(s[i].0 == k);
            assert forall|j: int| 0 <= j < s.len() implies #[trigger] s[j].0 == r[j].0 by {}
            if q == k {
                assert(is_first(s, k, i)) by {
                    assert forall|j: int| 0 <= j < i implies #[trigger] s[j].0 != k by {
                        assert(s[j].0 == r[j].0);
                    }
                }
                lemma_first_unique(s, k, i, position(s, q).unwrap());
            } else {
                match position(r, q) {
                    Some(p) => {
                        assert(s[p].0 == q);
                        assert(is_first(s, q, p)) by {
                            assert forall|j: int| 0 <= j < p implies #[trigger] s[j].0 != q by {
                                assert(s[j].0 == r[j].0);
                            }
                        }
                        lemma_first_unique(s, q, p, position(s, q).unwrap());
                    },
                    None => {
                        assert forall|j: int| 0 <= j < s.len() implies #[trigger] s[j].0 != q by {
                            assert(s[j].0 == r[j].0);
                        }
                    },
                }
            }
            if distinct_keys(r) {
                assert forall|a: int, b: int| 0 <= a < b < s.len() implies #[trigger] s[a].0
                    != #[trigger] s[b].0 by {
                    assert(s[a].0 == r[a].0);
                    assert(s[b].0 == r[b].0);
                }
            }
        },
        None => {
            let n = r.len() as int;
            assert(s[n].0 == k);
            assert forall|j: int| 0 <= j < n implies #[trigger] s[j].0 == r[j].0 by {}
            if q == k {
                assert(is_first(s, k, n)) by {
                    assert forall|j: int| 0 <= j < n implies #[trigger] s[j].0 != k by {
                        assert(s[j].0 == r[j].0);
                    }
                }
                lemma_first_unique(s, k, n, position(s, q).unwrap());
            } else {
                match position(r, q) {
                    Some(p) => {
                        assert(s[p].0 == q);
                        assert(is_first(s, q, p)) by {
                            assert forall|j: int| 0 <= j < p implies #[trigger] s[j].0 != q by {
                                assert(s[j].0 == r[j].0);
                            }
                        }
                        lemma_first_unique(s, q, p, position(s, q).unwrap());
                    },
                    None => {
                        assert forall|j: int| 0 <= j < s.len() implies #[trigger] s[j].0 != q by {
                            if j < n {
                                assert(s[j].0 == r[j].0);
                            }
                        }
                    },
                }
            }
            if distinct_keys(r) {
                assert forall|a: int, b: int| 0 <= a < b < s.len() implies #[trigger] s[a].0
                    != #[trigger] s[b].0 by {
                    assert(s[a].0 == r[a].0);
                    if b < n {
                        assert(s[b].0 == r[b].0);
                    }
                }
            }
        },
    }
}

/// The nested record wins: after `b` is merged into `a`, a key of `b` maps to
/// what `b` maps it to, and any other key to what `a` maps it to.
pub proof fn lemma_assign_lookup(a: Entries, b: Entries, q: Seq<char>)
    requires
        distinct_keys(b),
    ensures
        lookup(rec_assign(a, b), q) == if has_key(b, q) { lookup(b, q) } else { lookup(a, q) },
        has_key(rec_assign(a, b), q) == (has_key(a, q) || has_key(b, q)),
        distinct_keys(a) ==> distinct_keys(rec_assign(a, b)),
    decreases b.len(),
{
    if b.len() > 0 {
        let front = b.drop_last();
        let n = front.len() as int;
        assert forall|i: int, j: int| 0 <= i < j < front.len() implies #[trigger] front[i].0
            != #[trigger] front[j].0 by {
            assert(front[i].0 == b[i].0 && front[j].0 == b[j].0);
        }
        lemma_assign_lookup(a, front, q);
        lemma_set_lookup(rec_assign(a, front), b.last().0, b.last().1, q);
        lemma_position(b, q);
        lemma_position(front, q);
        assert(b[n].0 == b.last().0);
        if q == b.last().0 {
            assert forall|j: int| 0 <= j < n implies #[trigger] b[j].0 != q by {}
            assert(is_first(b, q, n));
            lemma_first_unique(b, q, n, position(b, q).unwrap());
        } else {
            match position(front, q) {
                Some(p) => {
                    assert(b[p].0 == front[p].0);
                    assert(is_first(b, q, p)) by {
                        assert forall|j: int| 0 <= j < p implies #[trigger] b[j].0 != q by {
                            assert(b[j].0 == front[j].0);
                        }
                    }
                    lemma_first_unique(b, q, p, position(b, q).unwrap());
                },
                None => {
                    assert forall|j: int| 0 <= j < b.len() implies #[trigger] b[j].0 != q by {
                        if j < n {
                            assert(b[j].0 == front[j].0);
                        }
                    }
                },
            }
        }
    } else {
        lemma_position(b, q);
    }
}

/// Merging into a mapping gives a mapping, whatever is merged in.
pub proof fn lemma_assign_distinct(a: Entries, b: Entries)
    requires
        distinct_keys(a),
    ensures
        distinct_keys(rec_assign(a, b)),
    decreases b.len(),
{
    if b.len() > 0 {
        lemma_assign_distinct(a, b.drop_last());
        lemma_set_lookup(rec_assign(a, b.drop_last()), b.last().0, b.last().1, b.last().0);
    }
}

/// Where `a` and `b` share no key, merging `b` into `a` puts the entries of
/// `b` behind those of `a`.
pub proof fn lemma_assign_disjoint(a: Entries, b: Entries)
    requires
        distinct_keys(b),
        forall|k: Seq<char>| has_key(b, k) ==> !has_key(a, k),
    ensures
        rec_assign(a, b) == a + b,
    decreases b.len(),
{
    if b.len() > 0 {
        let front = b.drop_last();
        let n = front.len() as int;
        let k = b.last().0;
        assert forall|i: int, j: int| 0 <= i < j < front.len() implies #[trigger] front[i].0
            != #[trigger] front[j].0 by {
            assert(front[i].0 == b[i].0 && front[j].0 == b[j].0);
        }
        assert forall|q: Seq<char>| has_key(front, q) implies !has_key(a, q) by {
            let w = choose|i: int| 0 <= i < front.len() && #[trigger] front[i].0 == q;
            assert(b[w].0 == q);
        }
        lemma_assign_disjoint(a, front);
        assert(b[n].0 == k);
        assert(has_key(b, k));
        let m = a + front;
        assert forall|j: int| 0 <= j < m.len() implies #[trigger] m[j].0 != k by {
            if j < a.len() {
                assert(m[j] == a[j]);
                assert(a[j].0 != k);
            } else {
                assert(m[j] == b[j - a.len()]);
            }
        }
        assert(position(m, k) is None);
        assert(m.push((k, b.last().1)) =~= a + b);
    } else {
        assert(a + b =~= a);
    }
}

/// The empty record has no key.
pub broadcast proof fn lemma_empty_has_key(q: Seq<char>)
    ensures
        !#[trigger] has_key(Seq::empty(), q),
{
}

/// The empty record maps no key.
pub broadcast proof fn lemma_empty_lookup(q: Seq<char>)
    ensures
        (#[trigger] lookup(Seq::empty(), q)) is None,
{
}

/// A key is in a record after a field was set where it is that field's or
/// was there before.
pub broadcast proof fn lemma_has_key_set(r: Entries, k: Seq<char>, v: Value, q: Seq<char>)
    ensures
        #[trigger] has_key(rec_set(r, k, v), q) == (q == k || has_key(r, q)),
{
    lemma_set_lookup(r, k, v, q);
}

/// After a field was set, its key maps to the new value and every other key
/// to what it mapped to before.
pub broadcast proof fn lemma_lookup_set(r: Entries, k: Seq<char>, v: Value, q: Seq<char>)
    ensures
        #[trigger] lookup(rec_set(r, k, v), q) == if q == k {
            Some(v)
        } else {
            lookup(r, q)
        },
{
    lemma_set_lookup(r, k, v, q);
}

/// Setting a field keeps a record a mapping.
pub broadcast proof fn lemma_distinct_set(r: Entries, k: Seq<char>, v: Value)
    requires
        distinct_keys(r),
    ensures
        #[trigger] distinct_keys(rec_set(r, k, v)),
{
    lemma_set_lookup(r, k, v, k);
}

/// A key is in a merged record where it is in either part.
pub broadcast proof fn lemma_has_key_assign(a: Entries, b: Entries, q: Seq<char>)
    requires
        distinct_keys(b),
    ensures
        #[trigger] has_key(rec_assign(a, b), q) == (has_key(a, q) || has_key(b, q)),
{
    lemma_assign_lookup(a, b, q);
}

/// In a merged record the part that was merged in wins.
pub broadcast proof fn lemma_lookup_assign(a: Entries, b: Entries, q: Seq<char>)
    requires
        distinct_keys(b),
    ensures
        #[trigger] lookup(rec_assign(a, b), q) == if has_key(b, q) {
            lookup(b, q)
        } else {
            lookup(a, q)
        },
{
    lemma_assign_lookup(a, b, q);
}

/// Merging two mappings gives a mapping.
pub broadcast proof fn lemma_distinct_assign(a: Entries, b: Entries)
    requires
        distinct_keys(a),
        distinct_keys(b),
    ensures
        #[trigger] distinct_keys(rec_assign(a, b)),
{
    lemma_assign_lookup(a, b, Seq::empty());
}

/// What holds of the keys and values of records that are built by setting
/// fields and merging.
pub broadcast group group_record_laws {
    lemma_empty_has_key,
    lemma_empty_lookup,
    lemma_has_key_set,
    lemma_lookup_set,
    lemma_distinct_set,
    lemma_has_key_assign,
    lemma_lookup_assign,
    lemma_distinct_assign,
}

impl DynRecord {
    /// The record is a mapping: it holds no key twice.
    pub open spec fn wf(&self) -> bool {
        distinct_keys(self@)
    }

    /// The record with no entry.
    pub fn new() -> (r: DynRecord)
        ensures
            r@ == Seq::<(Seq<char>, Value)>::empty(),
            r.wf(),
    {
        let r = DynRecord { entries: Vec::new() };
        assert(r@ =~= Seq::empty());
        r
    }

    /// The number of entries.
    pub fn len(&self) -> (n: usize)
        ensures
            n == self@.len(),
    {
        self.entries.len()
    }

    /// The place of the first entry with the key `key`.
    pub fn find(&self, key: &str) -> (r: Option<usize>)
        ensures
            match r {
                Some(i) => i < self@.len() && position(self@, key@) == Some(i as int),
                None => position(self@, key@) is None,
            },
    {
        let k = key.to_owned();
        let mut i: usize = 0;
        while i < self.entries.len()
            invariant
                i <= self.entries.len(),
                k@ == key@,
                forall|j: int| 0 <= j < i ==> #[trigger] self@[j].0 != key@,
            decreases self.entries.len() - i,
        {
            if self.entries[i].0 == k {
                proof {
                    assert(self@[i as int].0 == key@);
                    assert(is_first(self@, key@, i as int));
                    lemma_position(self@, key@);
                    lemma_first_unique(self@, key@, i as int, position(self@, key@).unwrap());
                }
                return Some(i);
            }
            i += 1;
        }
        proof {
            lemma_position(self@, key@);
        }
        None
    }

    /// The value under `key`, if the record has that key.
    pub fn get(&self, key: &str) -> (r: Option<&DynValue>)
        ensures
            match r {
                Some(v) => lookup(self@, key@) == Some(v@),
                None => lookup(self@, key@) is None,
            },
    {
        match self.find(key) {
            Some(i) => Some(&self.entries[i].1),
            None => None,
        }
    }

    /// Maps `key` to `value`. A key that is there keeps its place; a new key
    /// goes to the end.
    pub fn set(&mut self, key: &str, value: DynValue)
        ensures
            final(self)@ == rec_set(old(self)@, key@, value@),
            old(self).wf() ==> final(self).wf(),
    {
        proof {
            lemma_set_lookup(self@, key@, value@, key@);
        }
        let k = key.to_owned();
        match self.find(key) {
            Some(i) => {
                self.entries.set(i, (k, value));
                assert(self@ =~= old(self)@.update(i as int, (key@, value@)));
            },
            None => {
                self.entries.push((k, value));
                assert(self@ =~= old(self)@.push((key@, value@)));
            },
        }
    }

    /// Sets an optional field: a field without a value leaves no trace.
    pub fn set_opt(&mut self, key: &str, value: Option<DynValue>)
        ensures
            final(self)@ == with_opt(
                old(self)@,
                key@,
                match value {
                    Some(v) => Some(v@),
                    None => None,
                },
            ),
            old(self).wf() ==> final(self).wf(),
    {
        match value {
            Some(v) => self.set(key, v),
            None => {},
        }
    }

    /// Merges `other` into this record, entry by entry: where both define a
    /// key, the value of `other` wins.
    pub fn assign(&mut self, other: DynRecord)
        ensures
            final(self)@ == rec_assign(old(self)@, other@),
            old(self).wf() ==> final(self).wf(),
    {
        proof {
            if self.wf() {
                lemma_assign_distinct(self@, other@);
            }
        }
        let mut rest = other.entries;
        let ghost all = other@;
        let ghost total = all.len() as int;
        let mut done: Vec<(String, DynValue)> = Vec::new();
        // The entries are taken from the back, then set from the front.
        while rest.len() > 0
            invariant
                rest@.len() + done@.len() == total,
                forall|j: int| 0 <= j < rest@.len() ==> entries_view(rest@)[j] == all[j],
                forall|j: int|
                    0 <= j < done@.len() ==> entries_view(done@)[j] == all[total - 1 - j],
            decreases rest.len(),
        {
            let ghost before = entries_view(rest@);
            let ghost stack = entries_view(done@);
            let e = rest.pop().unwrap();
            done.push(e);
            assert forall|j: int| 0 <= j < rest@.len() implies entries_view(rest@)[j] == all[j] by {
                assert(entries_view(rest@)[j] == before[j]);
            }
            assert forall|j: int| 0 <= j < done@.len() implies entries_view(done@)[j] == all[total
                - 1 - j] by {
                if j < done@.len() - 1 {
                    assert(entries_view(done@)[j] == stack[j]);
                } else {
                    assert(entries_view(done@)[j] == before[before.len() - 1]);
                }
            }
        }
        while done.len() > 0
            invariant
                done@.len() <= total,
                total == all.len(),
                forall|j: int|
                    0 <= j < done@.len() ==> entries_view(done@)[j] == all[total - 1 - j],
                self@ == rec_assign(old(self)@, all.take(total - done@.len())),
            decreases done.len(),
        {
            let ghost stack = entries_view(done@);
            let ghost at = total - done@.len();
            let e = done.pop().unwrap();
            assert(all[at] == (e.0@, value_view(e.1))) by {
                assert(stack[stack.len() - 1] == all[at]);
            }
            assert forall|j: int| 0 <= j < done@.len() implies entries_view(done@)[j] == all[total
                - 1 - j] by {
                assert(entries_view(done@)[j] == stack[j]);
            }
            self.set(e.0.as_str(), e.1);
            assert(all.take(at + 1).drop_last() =~= all.take(at));
        }
        assert(all.take(total as int) =~= all);
    }
}

/// The value of an optional string field.
pub open spec fn str_value(s: Option<String>) -> Option<Value> {
    match s {
        Some(s) => Some(Value::Str(s@)),
        None => None,
    }
}

/// The value of an optional truth value.
pub open spec fn bool_value(b: Option<bool>) -> Option<Value> {
    match b {
        Some(b) => Some(Value::Bool(b)),
        None => None,
    }
}

/// The value of an optional whole number.
pub open spec fn int_value(n: Option<i32>) -> Option<Value> {
    match n {
        Some(n) => Some(Value::Num(Number::Int(n as i64))),
        None => None,
    }
}

/// The value of an optional number.
pub open spec fn num_value(n: Option<Number>) -> Option<Value> {
    match n {
        Some(n) => Some(Value::Num(n)),
        None => None,
    }
}

/// The model of an optional dynamic value.
pub open spec fn opt_view(o: Option<DynValue>) -> Option<Value> {
    match o {
        Some(v) => Some(v@),
        None => None,
    }
}

/// An optional string as an optional value.
pub fn dyn_str(s: &Option<String>) -> (o: Option<DynValue>)
    ensures
        opt_view(o) == str_value(*s),
{
    match s {
        Some(s) => Some(DynValue::Str(s.clone())),
        None => None,
    }
}

/// An optional truth value as an optional value.
pub fn dyn_bool(b: Option<bool>) -> (o: Option<DynValue>)
    ensures
        opt_view(o) == bool_value(b),
{
    match b {
        Some(b) => Some(DynValue::Bool(b)),
        None => None,
    }
}

/// An optional whole number as an optional value.
pub fn dyn_int(n: Option<i32>) -> (o: Option<DynValue>)
    ensures
        opt_view(o) == int_value(n),
{
    match n {
        Some(n) => Some(DynValue::Num(Number::Int(n as i64))),
        None => None,
    }
}

/// An optional number as an optional value.
pub fn dyn_num(n: Option<Number>) -> (o: Option<DynValue>)
    ensures
        opt_view(o) == num_value(n),
{
    match n {
        Some(n) => Some(DynValue::Num(n)),
        None => None,
    }
}

/// The string value of a name.
pub fn dyn_name(name: &str) -> (v: DynValue)
    ensures
        v@ == Value::Str(name@),
{
    DynValue::Str(name.to_owned())
}

} // verus!
