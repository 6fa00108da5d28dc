//! Column classification: mapping a column's native database type tag to the
//! semantic category that decides how its values are extracted and
//! serialized.

use vstd::prelude::*;

verus! {

/// The native type tag reported by the database driver for one column.
///
/// The tags with floating, decimal or whole-number semantics are listed
/// individually because the classifier distinguishes them; every other tag
/// the driver can report is `Other`.
#[derive(Clone, Copy, PartialEq, Eq, Structural, Debug)]
pub enum SqlType {
    Double,
    Real,
    Float,
    Decimal,
    Numeric,
    Integer,
    SmallInt,
    Other,
}

/// The three JSON-value shapes a database column is coerced into.
///
/// `Text` is the safe fallback: textual extraction is expected to succeed for
/// binary, date and unknown-typed columns alike.
#[derive(Clone, Copy, PartialEq, Eq, Structural, Debug)]
pub enum Category {
    Float,
    Int,
    Text,
}

/// The category a native type tag is classified into: floating, decimal and
/// numeric-with-fraction tags are `Float`, fixed-width whole-number tags are
/// `Int`, and every other tag falls back to `Text`.
pub open spec fn category_of(t: SqlType) -> Category {
    match t {
        SqlType::Double => Category::Float,
        SqlType::Real => Category::Float,
        SqlType::Float => Category::Float,
        SqlType::Decimal => Category::Float,
        SqlType::Numeric => Category::Float,
        SqlType::Integer => Category::Int,
        SqlType::SmallInt => Category::Int,
        SqlType::Other => Category::Text,
    }
}

/// Metadata for one result-set column: its name and the category its values
/// are extracted under. Derived once per query, right after the query
/// produces a result set, and immutable afterwards.
pub struct ColumnDescriptor {
    pub name: String,
    pub category: Category,
}

/// The mathematical value of a column descriptor.
pub ghost struct ColumnModel {
    pub name: Seq<char>,
    pub category: Category,
}

impl View for ColumnDescriptor {
    type V = ColumnModel;

    open spec fn view(&self) -> ColumnModel {
        ColumnModel { name: self.name@, category: self.category }
    }
}

impl DeepView for ColumnDescriptor {
    type V = ColumnModel;

    open spec fn deep_view(&self) -> ColumnModel {
        self.view()
    }
}

/// The driver's answer to describing one column: its name and native type
/// tag, or `Unknown` when the metadata could not be retrieved at all.
pub enum ColumnReply {
    Known(String, SqlType),
    Unknown,
}

/// The descriptor a describe reply yields: a described column keeps its name
/// and is classified by its tag; a column whose metadata could not be
/// retrieved is still included, named "unknown" and read as text, so the
/// result schema degrades gracefully instead of failing the query.
pub open spec fn descriptor_of(r: ColumnReply) -> ColumnModel {
    match r {
        ColumnReply::Known(name, t) => ColumnModel { name: name@, category: category_of(t) },
        ColumnReply::Unknown => ColumnModel { name: "unknown"@, category: Category::Text },
    }
}

/// Build one column's descriptor from the driver's describe reply.
pub fn descriptor_for(r: ColumnReply) -> (d: ColumnDescriptor)
    ensures
        d@ == descriptor_of(r),
{
    match r {
        ColumnReply::Known(name, t) => ColumnDescriptor { name, category: classify(t) },
        ColumnReply::Unknown => ColumnDescriptor {
            name: "unknown".to_owned(),
            category: Category::Text,
        },
    }
}

/// Classify one column's native type tag.
pub fn classify(t: SqlType) -> (c: Category)
    ensures
        c == category_of(t),
{
    match t {
        SqlType::Double => Category::Float,
        SqlType::Real => Category::Float,
        SqlType::Float => Category::Float,
        SqlType::Decimal => Category::Float,
        SqlType::Numeric => Category::Float,
        SqlType::Integer => Category::Int,
        SqlType::SmallInt => Category::Int,
        SqlType::Other => Category::Text,
    }
}

/// Type-mapping correctness: a column described with a floating, decimal or
/// numeric-with-fraction native tag is read as a 64-bit float, one with a
/// fixed-width whole-number tag as a 64-bit integer, and one with any other
/// tag as text; a column whose description failed outright is still
/// included, named "unknown" and read as text.
pub proof fn lemma_type_mapping(r: ColumnReply)
    ensures
        r matches ColumnReply::Known(_, t) ==> ((t == SqlType::Double || t == SqlType::Real
            || t == SqlType::Float || t == SqlType::Decimal || t == SqlType::Numeric)
            <==> descriptor_of(r).category == Category::Float),
        r matches ColumnReply::Known(_, t) ==> ((t == SqlType::Integer || t == SqlType::SmallInt)
            <==> descriptor_of(r).category == Category::Int),
        r matches ColumnReply::Known(_, t) ==> (t == SqlType::Other
            <==> descriptor_of(r).category == Category::Text),
        r is Unknown ==> descriptor_of(r).category == Category::Text
            && descriptor_of(r).name == "unknown"@,
{
}

} // verus!
