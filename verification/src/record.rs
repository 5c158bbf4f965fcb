//! The record definition that the generator reads.

use vstd::prelude::*;
use crate::annotation::Annotation;
use crate::annotation::AnnotationView;
use crate::config::sites;

verus! {

/// One named member of a record.
#[derive(Debug, PartialEq, Eq)]
pub struct Field {
    /// The field's name.
    pub name: String,
    /// The field's declared type, as written.
    pub ty: String,
    /// The annotation sites on the field, in order.
    pub annotations: Vec<Annotation>,
}

/// The mathematical value of a [`Field`].
pub struct FieldView {
    pub name: Seq<char>,
    pub ty: Seq<char>,
    pub annotations: Seq<AnnotationView>,
}

impl View for Field {
    type V = FieldView;

    open spec fn view(&self) -> FieldView {
        FieldView { name: self.name@, ty: self.ty@, annotations: sites(self.annotations@) }
    }
}

/// The values of a sequence of fields.
pub open spec fn members(fields: Seq<Field>) -> Seq<FieldView> {
    fields.map_values(|field: Field| field@)
}

/// The shape of the annotated type.
#[derive(Debug, PartialEq, Eq)]
pub enum Body {
    /// A structure with named fields, in declaration order.
    Named(Vec<Field>),
    /// A structure with positional fields.
    Tuple,
    /// A structure without fields or braces.
    Unit,
    /// An enumeration.
    Enum,
}

/// The mathematical value of a [`Body`].
pub enum BodyView {
    Named(Seq<FieldView>),
    Tuple,
    Unit,
    Enum,
}

impl View for Body {
    type V = BodyView;

    open spec fn view(&self) -> BodyView {
        match self {
            Body::Named(fields) => BodyView::Named(members(fields@)),
            Body::Tuple => BodyView::Tuple,
            Body::Unit => BodyView::Unit,
            Body::Enum => BodyView::Enum,
        }
    }
}

/// The generic parameters of a record, in the three forms in which an
/// implementation block writes them. Each is empty where the record has
/// none.
#[derive(Debug, PartialEq, Eq)]
pub struct Generics {
    /// The parameters with their bounds, as they follow `impl`.
    pub declared: String,
    /// The parameters alone, as they follow the record's name.
    pub applied: String,
    /// The `where` clause, with the word `where`.
    pub where_clause: String,
}

/// The mathematical value of [`Generics`].
pub struct GenericsView {
    pub declared: Seq<char>,
    pub applied: Seq<char>,
    pub where_clause: Seq<char>,
}

impl View for Generics {
    type V = GenericsView;

    open spec fn view(&self) -> GenericsView {
        GenericsView {
            declared: self.declared@,
            applied: self.applied@,
            where_clause: self.where_clause@,
        }
    }
}

impl Clone for Generics {
    fn clone(&self) -> (copy: Generics)
        ensures
            copy@ == self@,
    {
        Generics {
            declared: self.declared.clone(),
            applied: self.applied.clone(),
            where_clause: self.where_clause.clone(),
        }
    }
}

/// The annotated type for which functions are generated.
#[derive(Debug, PartialEq, Eq)]
pub struct Record {
    /// The type's name.
    pub name: String,
    /// The type's generic parameters.
    pub generics: Generics,
    /// The annotation sites on the type itself, in order.
    pub annotations: Vec<Annotation>,
    /// The type's shape and fields.
    pub body: Body,
}

/// The mathematical value of a [`Record`].
pub struct RecordView {
    pub name: Seq<char>,
    pub generics: GenericsView,
    pub annotations: Seq<AnnotationView>,
    pub body: BodyView,
}

impl View for Record {
    type V = RecordView;

    open spec fn view(&self) -> RecordView {
        RecordView {
            name: self.name@,
            generics: self.generics@,
            annotations: sites(self.annotations@),
            body: self.body@,
        }
    }
}

} // verus!
