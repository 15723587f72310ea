//! The semantic type of a field, and the promotion rule that merges the
//! candidate types seen for one field into a single column type.
use vstd::prelude::*;

verus! {

/// Resolution of a date-time column.
#[derive(Clone, Copy, Debug, PartialEq, Eq, Structural)]
pub enum TimeUnit {
    Nanoseconds,
    Microseconds,
    Milliseconds,
}

impl TimeUnit {
    /// How many of the unit make one second.
    pub open spec fn per_second(self) -> int {
        match self {
            TimeUnit::Nanoseconds => 1_000_000_000,
            TimeUnit::Microseconds => 1_000_000,
            TimeUnit::Milliseconds => 1_000,
        }
    }
}

/// The type assigned to one field of a schema.
#[derive(Debug, PartialEq, Eq)]
pub enum FieldType {
    Boolean,
    Int32,
    Int64,
    UInt32,
    UInt64,
    Float32,
    Float64,
    Utf8,
    Datetime(TimeUnit),
    Date,
    List(Box<FieldType>),
    Struct(Vec<(String, FieldType)>),
    Null,
    Unknown,
}

/// The mathematical value of a [`FieldType`]: the same tree, with sequences
/// in place of vectors and strings.
pub enum FieldTypeView {
    Boolean,
    Int32,
    Int64,
    UInt32,
    UInt64,
    Float32,
    Float64,
    Utf8,
    Datetime(TimeUnit),
    Date,
    List(Box<FieldTypeView>),
    Struct(Seq<(Seq<char>, FieldTypeView)>),
    Null,
    Unknown,
}

/// The mathematical value of `t`.
pub open spec fn field_type_view(t: FieldType) -> FieldTypeView
    decreases t,
{
    match t {
        FieldType::Boolean => FieldTypeView::Boolean,
        FieldType::Int32 => FieldTypeView::Int32,
        FieldType::Int64 => FieldTypeView::Int64,
        FieldType::UInt32 => FieldTypeView::UInt32,
        FieldType::UInt64 => FieldTypeView::UInt64,
        FieldType::Float32 => FieldTypeView::Float32,
        FieldType::Float64 => FieldTypeView::Float64,
        FieldType::Utf8 => FieldTypeView::Utf8,
        FieldType::Datetime(unit) => FieldTypeView::Datetime(unit),
        FieldType::Date => FieldTypeView::Date,
        FieldType::List(inner) => FieldTypeView::List(Box::new(field_type_view(*inner))),
        FieldType::Struct(fields) => FieldTypeView::Struct(
            Seq::new(
                fields@.len(),
                |i: int|
                    (
                        fields@[i].0@,
                        if 0 <= i < fields@.len() {
                            field_type_view(fields@[i].1)
                        } else {
                            FieldTypeView::Null
                        },
                    ),
            ),
        ),
        FieldType::Null => FieldTypeView::Null,
        FieldType::Unknown => FieldTypeView::Unknown,
    }
}

impl View for FieldType {
    type V = FieldTypeView;

    open spec fn view(&self) -> FieldTypeView {
        field_type_view(*self)
    }
}

impl FieldTypeView {
    /// Whether the type is one of the six numeric column types.
    pub open spec fn is_numeric(self) -> bool {
        self.numeric_rank() > 0
    }

    /// Position of a numeric type in the order of widening, 0 for every other
    /// type: `Int32 < UInt32 < Int64 < UInt64 < Float32 < Float64`.
    pub open spec fn numeric_rank(self) -> nat {
        match self {
            FieldTypeView::Int32 => 1,
            FieldTypeView::UInt32 => 2,
            FieldTypeView::Int64 => 3,
            FieldTypeView::UInt64 => 4,
            FieldTypeView::Float32 => 5,
            FieldTypeView::Float64 => 6,
            _ => 0,
        }
    }

    /// Whether the type is a list or a nested document.
    pub open spec fn is_compound(self) -> bool {
        self is List || self is Struct
    }

    /// The type of the column that holds values of this type: compound types
    /// have no column of their own and are held as text.
    pub open spec fn column_type(self) -> FieldTypeView {
        if self.is_compound() {
            FieldTypeView::Utf8
        } else {
            self
        }
    }

    /// Whether a column buffer exists for this type.
    pub open spec fn has_buffer(self) -> bool {
        !self.is_compound() && !(self is Null) && !(self is Unknown)
    }

    /// The promotion rule. `Null` is the identity; equal types stay; of two
    /// numeric types the wider one wins; every other pair falls back to text.
    /// Compound types enter as the type of their column.
    pub open spec fn merge(self, other: FieldTypeView) -> FieldTypeView {
        let a = self.column_type();
        let b = other.column_type();
        if a is Null {
            b
        } else if b is Null {
            a
        } else if a == b {
            a
        } else if a.is_numeric() && b.is_numeric() {
            if a.numeric_rank() >= b.numeric_rank() {
                a
            } else {
                b
            }
        } else {
            FieldTypeView::Utf8
        }
    }
}

/// A copy of a list of named types.
fn clone_fields(fields: &Vec<(String, FieldType)>) -> (r: Vec<(String, FieldType)>)
    ensures
        FieldType::Struct(r)@ == FieldType::Struct(*fields)@,
    decreases fields,
{
    let mut copy: Vec<(String, FieldType)> = Vec::new();
    let mut i: usize = 0;
    while i < fields.len()
        invariant
            i <= fields@.len(),
            copy@.len() == i,
            forall|j: int|
                0 <= j < i ==> (#[trigger] copy@[j]).0@ == fields@[j].0@ && copy@[j].1@
                    == fields@[j].1@,
        decreases fields@.len() - i,
    {
        copy.push((fields[i].0.clone(), fields[i].1.clone()));
        i += 1;
    }
    assert(FieldType::Struct(copy)@->Struct_0 =~= FieldType::Struct(*fields)@->Struct_0);
    copy
}

impl Clone for FieldType {
    /// A copy of the type: the same tree.
    fn clone(&self) -> (r: Self)
        ensures
            r@ == self@,
        decreases self,
    {
        match self {
            FieldType::Boolean => FieldType::Boolean,
            FieldType::Int32 => FieldType::Int32,
            FieldType::Int64 => FieldType::Int64,
            FieldType::UInt32 => FieldType::UInt32,
            FieldType::UInt64 => FieldType::UInt64,
            FieldType::Float32 => FieldType::Float32,
            FieldType::Float64 => FieldType::Float64,
            FieldType::Utf8 => FieldType::Utf8,
            FieldType::Datetime(unit) => FieldType::Datetime(*unit),
            FieldType::Date => FieldType::Date,
            FieldType::List(inner) => FieldType::List(Box::new((**inner).clone())),
            FieldType::Struct(fields) => FieldType::Struct(clone_fields(fields)),
            FieldType::Null => FieldType::Null,
            FieldType::Unknown => FieldType::Unknown,
        }
    }
}

impl FieldType {
    /// Position of a numeric type in the order of widening, 0 for every other
    /// type.
    pub fn numeric_rank(&self) -> (r: u8)
        ensures
            r as nat == self@.numeric_rank(),
    {
        match self {
            FieldType::Int32 => 1,
            FieldType::UInt32 => 2,
            FieldType::Int64 => 3,
            FieldType::UInt64 => 4,
            FieldType::Float32 => 5,
            FieldType::Float64 => 6,
            _ => 0,
        }
    }

    /// Whether the type is one of the six numeric column types.
    pub fn is_numeric(&self) -> (r: bool)
        ensures
            r == self@.is_numeric(),
    {
        self.numeric_rank() > 0
    }

    /// Whether a column buffer exists for this type.
    pub fn has_buffer(&self) -> (r: bool)
        ensures
            r == self@.has_buffer(),
    {
        match self {
            FieldType::List(_) | FieldType::Struct(_) | FieldType::Null | FieldType::Unknown => {
                false
            },
            _ => true,
        }
    }

    /// The type of the column that holds values of this type.
    pub fn column_type(&self) -> (r: FieldType)
        ensures
            r@ == self@.column_type(),
    {
        match self {
            FieldType::List(_) | FieldType::Struct(_) => FieldType::Utf8,
            _ => self.clone(),
        }
    }

    /// Merges two candidate types of one field by the promotion rule.
    pub fn merge(&self, other: &FieldType) -> (r: FieldType)
        ensures
            r@ == self@.merge(other@),
    {
        let a = self.column_type();
        let b = other.column_type();
        match (&a, &b) {
            (FieldType::Null, _) => b,
            (_, FieldType::Null) => a,
            (FieldType::Boolean, FieldType::Boolean) => a,
            (FieldType::Utf8, FieldType::Utf8) => a,
            (FieldType::Date, FieldType::Date) => a,
            (FieldType::Unknown, FieldType::Unknown) => a,
            (FieldType::Datetime(x), FieldType::Datetime(y)) => {
                if *x == *y {
                    a
                } else {
                    FieldType::Utf8
                }
            },
            _ => {
                let ra = a.numeric_rank();
                let rb = b.numeric_rank();
                if ra > 0 && rb > 0 {
                    if ra >= rb {
                        a
                    } else {
                        b
                    }
                } else {
                    FieldType::Utf8
                }
            },
        }
    }
}

} // verus!
