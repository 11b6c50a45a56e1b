use vstd::prelude::*;

verus! {

/// The twelve bytes of a database record's identifier.
#[derive(Clone, Copy, Debug, PartialEq, Eq)]
pub struct RecordId {
    pub bytes: [u8; 12],
}

/// A value that a query filter compares a field with.
#[derive(Clone, Debug, PartialEq, Eq)]
pub enum FilterValue {
    Str(String),
    Int(i64),
    Bool(bool),
    Null,
    Id(RecordId),
}

/// A query filter: an ordered list of `field == value` conditions, each
/// field named once.
pub struct Filter {
    entries: Vec<(String, FilterValue)>,
}

/// One condition of a filter, the field name taken as text.
pub type Condition = (Seq<char>, FilterValue);

/// No field is named twice in `s`.
pub open spec fn fields_distinct(s: Seq<Condition>) -> bool {
    forall|i: int, j: int| 0 <= i < j < s.len() ==> #[trigger] s[i].0 != #[trigger] s[j].0
}

/// `s` holds a condition on `field`.
pub open spec fn has_field(s: Seq<Condition>, field: Seq<char>) -> bool {
    exists|i: int| 0 <= i < s.len() && #[trigger] s[i].0 == field
}

/// Where `s` holds its condition on `field`, when it holds one.
pub open spec fn field_position(s: Seq<Condition>, field: Seq<char>) -> int {
    choose|i: int| 0 <= i < s.len() && #[trigger] s[i].0 == field
}

/// `s` after setting `field` to `value`: the existing condition on `field`
/// takes the new value in its place, or the condition is added at the end.
pub open spec fn with_condition(s: Seq<Condition>, field: Seq<char>, value: FilterValue) -> Seq<
    Condition,
> {
    if has_field(s, field) {
        s.update(field_position(s, field), (field, value))
    } else {
        s.push((field, value))
    }
}

/// The condition that `field` equals `value`, when there is a value.
pub open spec fn optional_condition(field: Seq<char>, value: Option<FilterValue>) -> Seq<Condition> {
    match value {
        Some(v) => seq![(field, v)],
        None => seq![],
    }
}

/// `o` as a text value of a filter.
pub open spec fn text_value(o: Option<String>) -> Option<FilterValue> {
    match o {
        Some(s) => Some(FilterValue::Str(s)),
        None => None,
    }
}

/// `o` as an integer value of a filter.
pub open spec fn int_value(o: Option<i64>) -> Option<FilterValue> {
    match o {
        Some(n) => Some(FilterValue::Int(n)),
        None => None,
    }
}

/// `o` as a record value of a filter.
pub open spec fn id_value(o: Option<RecordId>) -> Option<FilterValue> {
    match o {
        Some(r) => Some(FilterValue::Id(r)),
        None => None,
    }
}

/// In a sequence whose fields are distinct, the condition on `field` stands
/// at `i` and nowhere else.
proof fn lemma_position_unique(s: Seq<Condition>, field: Seq<char>, i: int)
    requires
        fields_distinct(s),
        0 <= i < s.len(),
        s[i].0 == field,
    ensures
        has_field(s, field),
        field_position(s, field) == i,
{
    let p = field_position(s, field);
    if p != i {
        if p < i {
            assert(s[p].0 != s[i].0);
        } else {
            assert(s[i].0 != s[p].0);
        }
    }
}

/// When `s` holds a condition on `field`, `field_position` finds it, and
/// the field found is as long as `field`.
pub proof fn lemma_field_witness(s: Seq<Condition>, field: Seq<char>)
    ensures
        has_field(s, field) ==> {
            let i = field_position(s, field);
            0 <= i < s.len() && s[i].0 == field && s[i].0.len() == field.len()
        },
{
}

/// Setting a field keeps the fields distinct, and setting it twice leaves
/// one condition on it, with the second value, where the first one put it.
pub proof fn lemma_set_twice(s: Seq<Condition>, field: Seq<char>, first: FilterValue, second: FilterValue)
    requires
        fields_distinct(s),
    ensures
        fields_distinct(with_condition(s, field, first)),
        with_condition(with_condition(s, field, first), field, second) == with_condition(
            s,
            field,
            second,
        ),
{
    let t = with_condition(s, field, first);
    if has_field(s, field) {
        let p = field_position(s, field);
        assert(s[p].0 == field);
        assert(fields_distinct(t)) by {
            assert forall|a: int, b: int| 0 <= a < b < t.len() implies #[trigger] t[a].0
                != #[trigger] t[b].0 by {
                assert(t[a].0 == s[a].0);
                assert(t[b].0 == s[b].0);
            }
        }
        lemma_position_unique(t, field, p);
        assert(t.update(p, (field, second)) =~= s.update(p, (field, second)));
    } else {
        let n = s.len() as int;
        assert(fields_distinct(t)) by {
            assert forall|a: int, b: int| 0 <= a < b < t.len() implies #[trigger] t[a].0
                != #[trigger] t[b].0 by {
                if b == n {
                    assert(s[a].0 != field);
                }
            }
        }
        lemma_position_unique(t, field, n);
        assert(t.update(n, (field, second)) =~= s.push((field, second)));
    }
}

impl View for Filter {
    type V = Seq<Condition>;

    closed spec fn view(&self) -> Seq<Condition> {
        self.entries@.map_values(|e: (String, FilterValue)| (e.0@, e.1))
    }
}

impl Filter {
    #[verifier::type_invariant]
    closed spec fn wf(self) -> bool {
        fields_distinct(self@)
    }

    /// The filter that every record meets.
    pub fn new() -> (f: Filter)
        ensures
            f@ == Seq::<Condition>::empty(),
            fields_distinct(f@),
    {
        let f = Filter { entries: Vec::new() };
        assert(f@ =~= Seq::<Condition>::empty());
        f
    }

    /// The conditions of the filter, in order.
    pub fn into_entries(self) -> (entries: Vec<(String, FilterValue)>)
        ensures
            entries@.map_values(|e: (String, FilterValue)| (e.0@, e.1)) == self@,
    {
        self.entries
    }

    /// The filter of the single condition `field == value`.
    pub fn single(field: String, value: FilterValue) -> (f: Filter)
        ensures
            f@ == seq![(field@, value)],
    {
        let mut f = Filter::new();
        f.insert(field, value);
        assert(f@ =~= seq![(field@, value)]);
        f
    }

    /// Sets the condition on `field` to `value`, in its place when the field
    /// already has one and at the end otherwise.
    pub fn insert(&mut self, field: String, value: FilterValue)
        ensures
            final(self)@ == with_condition(old(self)@, field@, value),
            fields_distinct(old(self)@),
            fields_distinct(final(self)@),
    {
        proof {
            use_type_invariant(&*self);
        }
        let n = self.entries.len();
        let ghost s = self@;
        let mut i: usize = 0;
        while i < n
            invariant
                n == self.entries@.len(),
                s == self@,
                s == old(self)@,
                fields_distinct(s),
                i <= n,
                forall|j: int| 0 <= j < i ==> s[j].0 != field@,
            decreases n - i,
        {
            assert(s[i as int].0 == self.entries@[i as int].0@);
            if self.entries[i].0 == field {
                proof {
                    lemma_position_unique(s, field@, i as int);
                }
                let mut entries = Vec::new();
                std::mem::swap(&mut entries, &mut self.entries);
                entries.set(i, (field, value));
                proof {
                    assert(entries@.map_values(|e: (String, FilterValue)| (e.0@, e.1)) =~= s.update(
                        i as int,
                        (field@, value),
                    ));
                    assert(fields_distinct(s.update(i as int, (field@, value))));
                }
                self.entries = entries;
                return;
            }
            i = i + 1;
        }
        assert(!has_field(s, field@));
        let mut entries = Vec::new();
        std::mem::swap(&mut entries, &mut self.entries);
        let ghost k = field@;
        entries.push((field, value));
        proof {
            assert(entries@.map_values(|e: (String, FilterValue)| (e.0@, e.1)) =~= s.push((k, value)));
            assert forall|a: int, b: int| 0 <= a < b < s.push((k, value)).len() implies #[trigger] s.push(
                (k, value),
            )[a].0 != #[trigger] s.push((k, value))[b].0 by {
                if b == s.len() {
                    assert(s[a].0 != k);
                }
            }
        }
        self.entries = entries;
    }
}

} // verus!
