//! The raw, self-describing values that documents carry.
use vstd::prelude::*;

verus! {

/// A 64-bit floating point number, held without floating point arithmetic.
///
/// `bits` is the number's IEEE 754 bit pattern. `integral` is the number
/// rounded toward zero, where the number is finite and the rounded value fits
/// in 128 bits, and `None` otherwise. Whoever builds the value keeps the two
/// in step; columns of integers read `integral`, columns of floating point
/// numbers carry `bits`.
#[derive(Clone, Copy, Debug, PartialEq, Eq)]
pub struct Double {
    pub bits: u64,
    pub integral: Option<i128>,
}

/// A point in a replication log: seconds since the epoch and a counter.
#[derive(Clone, Copy, Debug, PartialEq, Eq)]
pub struct Timestamp {
    pub time: u32,
    pub increment: u32,
}

/// A regular expression: its pattern and its option letters.
#[derive(Debug, PartialEq, Eq)]
pub struct Regex {
    pub pattern: String,
    pub options: String,
}

/// One dynamically typed value of a document.
#[derive(Debug, PartialEq, Eq)]
pub enum RawValue {
    Double(Double),
    String(String),
    Array(Vec<RawValue>),
    Document(Document),
    Boolean(bool),
    Null,
    RegularExpression(Regex),
    JavaScriptCode(String),
    JavaScriptCodeWithScope,
    Int32(i32),
    Int64(i64),
    Timestamp(Timestamp),
    Binary,
    /// The twelve bytes of an object identifier.
    ObjectId([u8; 12]),
    /// Milliseconds since the epoch.
    DateTime(i64),
    Symbol(String),
    Decimal128,
    Undefined,
    MaxKey,
    MinKey,
    DbPointer,
}

/// An ordered mapping from field names to raw values. Where a name occurs
/// more than once, its first entry is the field.
#[derive(Debug, PartialEq, Eq)]
pub struct Document {
    pub entries: Vec<(String, RawValue)>,
}

/// The least index from `from` on at which `entries` holds the name `key`.
pub open spec fn first_entry(entries: Seq<(String, RawValue)>, key: Seq<char>, from: int) -> Option<
    int,
>
    decreases entries.len() - from,
{
    if from < 0 || from >= entries.len() {
        None
    } else if entries[from].0@ == key {
        Some(from)
    } else {
        first_entry(entries, key, from + 1)
    }
}

/// What `first_entry` finds is an entry of that name, and the first one.
pub proof fn lemma_first_entry(entries: Seq<(String, RawValue)>, key: Seq<char>, from: int)
    requires
        0 <= from,
    ensures
        match first_entry(entries, key, from) {
            Some(i) => from <= i < entries.len() && entries[i].0@ == key && forall|j: int|
                from <= j < i ==> entries[j].0@ != key,
            None => forall|j: int| from <= j < entries.len() ==> entries[j].0@ != key,
        },
    decreases entries.len() - from,
{
    if from < entries.len() && entries[from].0@ != key {
        lemma_first_entry(entries, key, from + 1);
    }
}

impl Document {
    /// The index of the field `key`, if the document has it.
    pub open spec fn position(self, key: Seq<char>) -> Option<int> {
        first_entry(self.entries@, key, 0)
    }

    /// Whether the document has a field `key`.
    pub open spec fn has(self, key: Seq<char>) -> bool {
        self.position(key) is Some
    }

    /// The value of the field `key`, if the document has it.
    pub open spec fn lookup(self, key: Seq<char>) -> Option<RawValue> {
        match self.position(key) {
            Some(i) => Some(self.entries@[i].1),
            None => None,
        }
    }

    /// A document without fields.
    pub fn new() -> (r: Document)
        ensures
            r.entries@.len() == 0,
    {
        Document { entries: Vec::new() }
    }

    /// Appends an entry. It becomes the field `key` unless an earlier entry
    /// has that name.
    pub fn push(&mut self, key: String, value: RawValue)
        ensures
            final(self).entries@ == old(self).entries@.push((key, value)),
    {
        self.entries.push((key, value));
    }

    /// The number of entries.
    pub fn len(&self) -> (r: usize)
        ensures
            r == self.entries@.len(),
    {
        self.entries.len()
    }

    /// The value of the field `key`.
    pub fn get(&self, key: &String) -> (r: Option<&RawValue>)
        ensures
            match r {
                Some(v) => self.lookup(key@) == Some(*v),
                None => self.lookup(key@) is None,
            },
    {
        let mut i: usize = 0;
        while i < self.entries.len()
            invariant
                i <= self.entries@.len(),
                first_entry(self.entries@, key@, 0) == first_entry(self.entries@, key@, i as int),
            decreases self.entries@.len() - i,
        {
            if self.entries[i].0 == *key {
                return Some(&self.entries[i].1);
            }
            i += 1;
        }
        None
    }
}

} // verus!
