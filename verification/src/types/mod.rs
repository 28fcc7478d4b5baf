//! Types of the language: their syntax, their forms, integer and
//! floating-point layouts, and containment of values in types.

pub mod contains;
pub mod define;
pub mod float;
pub mod form;
pub mod int_spec;
pub mod res;

use std::rc::Rc;
use vstd::prelude::*;

use crate::mem::Name;
use crate::pos::Source;
use crate::types::float::FloatSpec;
use crate::types::form::TypeForm;
use crate::types::int_spec::IntSpec;

verus! {

/// A type as written in the program.
#[derive(PartialEq, Eq, Hash, Debug)]
pub enum Type {
    /// A reference to a named type, with the named type once resolved.
    Ident(Source, Name, Option<Rc<Type>>),
    /// An integer type, bounded or not.
    Int(Source, Option<IntSpec>),
    /// A floating-point type, bounded or not.
    Float(Source, Option<FloatSpec>),
    /// An array of elements, with its length if known.
    Array(Source, Box<Type>, Option<usize>),
    /// A pointer: the type of the address, then the type pointed to.
    Ptr(Source, Box<Type>, Box<Type>),
    /// A structure of members.
    Struct(Source, Vec<Member>),
    /// A union of members.
    Union(Source, Vec<Member>),
    /// A function: parameters, then results.
    Func(Source, Vec<Member>, Vec<Member>),
}

/// A named member of a structure, union or function signature.
#[derive(PartialEq, Eq, Hash, Debug)]
pub struct Member(pub Name, pub Type);

impl Type {
    /// Whether the form of the type can be computed: every type reference
    /// that the computation follows has been resolved.
    pub open spec fn form_defined(self) -> bool
        decreases self,
    {
        match self {
            Type::Ptr(_, t, _) => t.form_defined(),
            Type::Ident(_, _, Some(t)) => t.form_defined(),
            Type::Ident(_, _, None) => false,
            _ => true,
        }
    }

    /// The form of the type.
    pub open spec fn spec_form(self) -> TypeForm
        decreases self,
    {
        match self {
            Type::Int(_, s) => TypeForm::Inty(s),
            Type::Float(_, s) => TypeForm::Floaty(s),
            Type::Ptr(_, t, _) => t.spec_form(),
            Type::Ident(_, _, Some(t)) => t.spec_form(),
            _ => TypeForm::Opaque(None),
        }
    }

    /// The type reached by following resolved references.
    pub open spec fn spec_resolved(self) -> Type
        decreases self,
    {
        match self {
            Type::Ident(_, _, Some(t)) => t.spec_resolved(),
            _ => self,
        }
    }

    /// Returns the form of the type: that of its address type for a
    /// pointer, that of the named type for a reference; aggregates are
    /// opaque.
    pub fn form(&self) -> (r: TypeForm)
        requires
            self.form_defined(),
        ensures
            r == self.spec_form(),
        decreases self,
    {
        match self {
            Type::Int(_, s) => TypeForm::Inty(*s),
            Type::Float(_, s) => TypeForm::Floaty(*s),
            Type::Ptr(_, t, _) => t.form(),
            Type::Ident(_, _, Some(t)) => t.form(),
            _ => TypeForm::Opaque(None),
        }
    }

    /// Returns the type reached by following resolved references.
    pub fn as_resolved(&self) -> (r: &Type)
        ensures
            *r == self.spec_resolved(),
        decreases self,
    {
        match self {
            Type::Ident(_, _, Some(t)) => t.as_resolved(),
            _ => self,
        }
    }
}

} // verus!
