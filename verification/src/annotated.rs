//! Values that carry metadata about how they were obtained, and the loosely
//! typed values found in open-ended event attributes.

use crate::text::same_text;
use vstd::prelude::*;

verus! {

/// How a remark describes the part of a text that it covers.
#[derive(Clone, Copy, Debug, PartialEq, Eq, Structural)]
pub enum RemarkType {
    /// The part was annotated but not changed.
    Annotated,
    /// The part was taken out.
    Removed,
    /// The part was replaced by something else.
    Substituted,
}

impl DeepView for RemarkType {
    type V = RemarkType;

    open spec fn deep_view(&self) -> RemarkType {
        *self
    }
}

/// A note on a part of a text, left by a rule that looked at it.
#[derive(Debug, PartialEq)]
pub struct Remark {
    pub ty: RemarkType,
    pub rule_id: String,
    /// The characters covered, from the first up to but without the second index.
    pub range: (usize, usize),
}

/// What a [`Remark`] says.
#[verifier::ext_equal]
pub struct RemarkModel {
    pub ty: RemarkType,
    pub rule_id: Seq<char>,
    pub range: (usize, usize),
}

impl DeepView for Remark {
    type V = RemarkModel;

    open spec fn deep_view(&self) -> RemarkModel {
        RemarkModel { ty: self.ty, rule_id: self.rule_id@, range: self.range }
    }
}

/// Metadata that travels with a value.
#[derive(Debug, PartialEq)]
pub struct Meta {
    pub remarks: Vec<Remark>,
    pub errors: Vec<String>,
    /// Length in characters before the text was first cut.
    pub original_length: Option<usize>,
    /// The value that an error replaced.
    pub original_value: Option<Value>,
}

/// What a [`Meta`] says.
#[verifier::ext_equal]
pub struct MetaModel {
    pub remarks: Seq<RemarkModel>,
    pub errors: Seq<Seq<char>>,
    pub original_length: Option<usize>,
    pub original_value: Option<ValueModel>,
}

impl DeepView for Meta {
    type V = MetaModel;

    open spec fn deep_view(&self) -> MetaModel {
        MetaModel {
            remarks: self.remarks.deep_view(),
            errors: self.errors.deep_view(),
            original_length: self.original_length,
            original_value: self.original_value.deep_view(),
        }
    }
}

impl MetaModel {
    /// Metadata that says nothing.
    pub open spec fn blank() -> MetaModel {
        MetaModel {
            remarks: Seq::empty(),
            errors: Seq::empty(),
            original_length: None,
            original_value: None,
        }
    }

    /// This metadata with one more error, and with the value that the error
    /// replaced if there was one.
    pub open spec fn with_error(self, error: Seq<char>, value: Option<ValueModel>) -> MetaModel {
        MetaModel {
            errors: self.errors.push(error),
            original_value: if value is Some {
                value
            } else {
                self.original_value
            },
            ..self
        }
    }
}

impl Default for Meta {
    fn default() -> (res: Meta)
        ensures
            res.deep_view() == MetaModel::blank(),
    {
        let res = Meta {
            remarks: Vec::new(),
            errors: Vec::new(),
            original_length: None,
            original_value: None,
        };
        assert(res.deep_view() =~= MetaModel::blank());
        res
    }
}

impl Meta {
    /// Whether any error was noted.
    pub fn has_errors(&self) -> (res: bool)
        ensures
            res == (self.deep_view().errors.len() > 0),
    {
        self.errors.len() > 0
    }

    /// The errors, in the order in which they were noted.
    pub fn iter_errors(&self) -> (res: &[String])
        ensures
            res.deep_view() == self.deep_view().errors,
    {
        let res = self.errors.as_slice();
        assert(res.deep_view() =~= self.errors.deep_view());
        res
    }

    /// Notes an error, and the value that it replaced if there was one.
    pub fn add_error(&mut self, error: &str, value: Option<Value>)
        ensures
            final(self).deep_view() == old(self).deep_view().with_error(error@, value.deep_view()),
    {
        self.errors.push(error.to_owned());
        if value.is_some() {
            self.original_value = value;
        }
        assert(self.errors.deep_view() =~= old(self).errors.deep_view().push(error@));
    }

    /// Notes a remark.
    pub fn add_remark(&mut self, remark: Remark)
        ensures
            final(self).deep_view() == (MetaModel {
                remarks: old(self).deep_view().remarks.push(remark.deep_view()),
                ..old(self).deep_view()
            }),
    {
        self.remarks.push(remark);
        assert(self.remarks.deep_view() =~= old(self).remarks.deep_view().push(remark.deep_view()));
    }
}

/// A value that may be missing, with its metadata.
#[derive(Debug, PartialEq)]
pub struct Annotated<T>(pub Option<T>, pub Meta);

/// What an [`Annotated`] holds.
#[verifier::ext_equal]
pub struct Ann<V> {
    pub value: Option<V>,
    pub meta: MetaModel,
}

impl<T: DeepView> DeepView for Annotated<T> {
    type V = Ann<T::V>;

    open spec fn deep_view(&self) -> Ann<T::V> {
        Ann { value: self.0.deep_view(), meta: self.1.deep_view() }
    }
}

impl<V> Ann<V> {
    /// A value with nothing to say about it.
    pub open spec fn of(value: V) -> Ann<V> {
        Ann { value: Some(value), meta: MetaModel::blank() }
    }

    /// No value, and nothing to say about that.
    pub open spec fn missing() -> Ann<V> {
        Ann { value: None, meta: MetaModel::blank() }
    }

    /// The same metadata around another value.
    pub open spec fn with(self, value: V) -> Ann<V> {
        Ann { value: Some(value), meta: self.meta }
    }

    /// The same metadata without a value.
    pub open spec fn cleared(self) -> Ann<V> {
        Ann { value: None, meta: self.meta }
    }

    /// The same metadata, and `value` where no value was present.
    pub open spec fn or(self, value: V) -> Ann<V> {
        if self.value is None {
            self.with(value)
        } else {
            self
        }
    }
}

impl<T> Annotated<T> {
    /// A value with empty metadata.
    pub fn new(value: T) -> (res: Annotated<T>)
        ensures
            res.0 == Some(value),
            res.1.deep_view() == MetaModel::blank(),
    {
        Annotated(Some(value), Meta::default())
    }

    /// No value, with empty metadata.
    pub fn empty() -> (res: Annotated<T>)
        ensures
            res.0 is None,
            res.1.deep_view() == MetaModel::blank(),
    {
        Annotated(None, Meta::default())
    }

    /// Fills in `value` where none is present.
    pub fn or_value(self, value: T) -> (res: Annotated<T>)
        ensures
            res.0 == (if self.0 is None {
                Some(value)
            } else {
                self.0
            }),
            res.1 == self.1,
    {
        match self.0 {
            Some(present) => Annotated(Some(present), self.1),
            None => Annotated(Some(value), self.1),
        }
    }
}

/// A loosely typed value.
#[derive(Debug, PartialEq)]
pub enum Value {
    Null,
    Bool(bool),
    I64(i64),
    U64(u64),
    /// A double, by the bits of its binary representation.
    F64Bits(u64),
    String(String),
    Array(Vec<Annotated<Value>>),
    Object(Object<Value>),
}

/// What the normalization sees of a [`Value`]: the characters of a text, and
/// everything else as it is.
#[verifier::ext_equal]
pub enum ValueModel {
    Text(Seq<char>),
    Other(Value),
}

impl DeepView for Value {
    type V = ValueModel;

    open spec fn deep_view(&self) -> ValueModel {
        match *self {
            Value::String(text) => ValueModel::Text(text@),
            other => ValueModel::Other(other),
        }
    }
}

/// A collection of named values. No name occurs twice.
#[derive(Debug, PartialEq)]
pub struct Object<T> {
    entries: Vec<(String, Annotated<T>)>,
}

impl<T> Object<T> {
    #[verifier::type_invariant]
    spec fn names_are_unique(self) -> bool {
        forall|i: int, j: int|
            0 <= i < j < self.entries@.len() ==> #[trigger] self.entries@[i].0@
                != #[trigger] self.entries@[j].0@
    }

    spec fn holds_at(self, name: Seq<char>, i: int) -> bool {
        0 <= i < self.entries@.len() && self.entries@[i].0@ == name
    }
}

impl<T: DeepView> DeepView for Object<T> {
    type V = Map<Seq<char>, Ann<T::V>>;

    closed spec fn deep_view(&self) -> Map<Seq<char>, Ann<T::V>> {
        Map::new(
            |name: Seq<char>| exists|i: int| self.holds_at(name, i),
            |name: Seq<char>| self.entries@[choose|i: int| self.holds_at(name, i)].1.deep_view(),
        )
    }
}

impl<T: DeepView> Object<T> {
    proof fn lemma_entry_at(self, name: Seq<char>, i: int)
        requires
            self.names_are_unique(),
            self.holds_at(name, i),
        ensures
            self.deep_view().contains_key(name),
            self.deep_view()[name] == self.entries@[i].1.deep_view(),
    {
        let k = choose|k: int| self.holds_at(name, k);
        if k < i {
            assert(self.entries@[k].0@ != self.entries@[i].0@);
        } else if i < k {
            assert(self.entries@[i].0@ != self.entries@[k].0@);
        }
    }

    /// An object without entries.
    pub fn new() -> (res: Object<T>)
        ensures
            res.deep_view() == Map::<Seq<char>, Ann<T::V>>::empty(),
    {
        let res = Object { entries: Vec::new() };
        assert(res.deep_view() =~= Map::<Seq<char>, Ann<T::V>>::empty());
        res
    }

    /// Where the entry of that name stands.
    fn position(&self, name: &str) -> (res: Option<usize>)
        ensures
            match res {
                Some(i) => self.holds_at(name@, i as int) && self.deep_view().contains_key(name@)
                    && self.deep_view()[name@] == self.entries@[i as int].1.deep_view(),
                None => !self.deep_view().contains_key(name@),
            },
    {
        proof {
            use_type_invariant(self);
        }
        let mut i: usize = 0;
        while i < self.entries.len()
            invariant
                i <= self.entries@.len(),
                self.names_are_unique(),
                forall|j: int| 0 <= j < i ==> !self.holds_at(name@, j),
            decreases self.entries.len() - i,
        {
            if same_text(self.entries[i].0.as_str(), name) {
                proof {
                    self.lemma_entry_at(name@, i as int);
                }
                return Some(i);
            }
            i += 1;
        }
        None
    }

    /// The entry of that name.
    pub fn get(&self, name: &str) -> (res: Option<&Annotated<T>>)
        ensures
            match res {
                Some(entry) => self.deep_view().contains_key(name@) && entry.deep_view()
                    == self.deep_view()[name@],
                None => !self.deep_view().contains_key(name@),
            },
    {
        match self.position(name) {
            Some(i) => Some(&self.entries[i].1),
            None => None,
        }
    }

    /// This object with the entry of that name set to `value`.
    pub fn insert(self, name: String, value: Annotated<T>) -> (res: Object<T>)
        ensures
            res.deep_view() == self.deep_view().insert(name@, value.deep_view()),
    {
        proof {
            use_type_invariant(&self);
        }
        let position = self.position(name.as_str());
        let mut entries = self.entries;
        let ghost at: int = match position {
            Some(i) => i as int,
            None => entries@.len() as int,
        };
        match position {
            Some(i) => {
                entries[i] = (name, value);
            },
            None => {
                assert forall|j: int| 0 <= j < entries@.len() implies #[trigger] entries@[j].0@
                    != name@ by {
                    assert(!self.holds_at(name@, j));
                }
                entries.push((name, value));
            },
        }
        let res = Object { entries };
        proof {
            res.lemma_entry_at(name@, at);
            assert forall|other: Seq<char>| other != name@ implies (self.deep_view().contains_key(
                other,
            ) <==> #[trigger] res.deep_view().contains_key(other)) && (res.deep_view().contains_key(
                other,
            ) ==> res.deep_view()[other] == self.deep_view()[other]) by {
                if self.deep_view().contains_key(other) {
                    let k = choose|k: int| self.holds_at(other, k);
                    self.lemma_entry_at(other, k);
                    res.lemma_entry_at(other, k);
                }
                if res.deep_view().contains_key(other) {
                    let k = choose|k: int| res.holds_at(other, k);
                    self.lemma_entry_at(other, k);
                }
            }
            assert(res.deep_view() =~= self.deep_view().insert(name@, value.deep_view()));
        }
        res
    }
}

} // verus!
