//! The type builder: an order-enforcing state machine that assembles one
//! immutable [`Type`] through an "open, populate, close" protocol. A call
//! made in the wrong state, or a close over a field or variant count that
//! does not match the declared one, is a contract violation and surfaces
//! immediately as a [`BuildError`]; no malformed `Type` is ever produced.

use vstd::prelude::*;

use crate::types::{Field, Type, TypeId, Variant};

verus! {

/// A misuse of the builder protocol: the fail-fast outcome of an invalid
/// call sequence, never of bad data.
#[derive(Clone, Copy, PartialEq, Eq, Structural, Debug)]
pub enum BuildError {
    /// The operation is not valid in the builder's current state.
    InvalidCall,
    /// A scope was closed after `got` entries where exactly `expected` were
    /// declared.
    CountMismatch { expected: usize, got: usize },
}

/// The open-scope state of a builder. Struct-variant field lists nest inside
/// an enum's variant list, and that is the only nesting the shapes allow, so
/// the stack of open scopes is at most two deep and is written out flat.
pub enum BuilderState {
    /// No scope opened yet.
    Start,
    /// A struct's field list is open.
    Struct { name: String, expected: usize, fields: Vec<Field> },
    /// A tuple struct's element list is open.
    Tuple { name: String, expected: usize, elements: Vec<TypeId> },
    /// An enum's variant list is open.
    Enum { name: String, expected: usize, variants: Vec<Variant> },
    /// A struct-style variant's field list is open inside an enum's variant
    /// list.
    EnumVariant {
        name: String,
        expected: usize,
        variants: Vec<Variant>,
        vname: String,
        vexpected: usize,
        vfields: Vec<Field>,
    },
    /// The outer scope was closed; the finished value awaits [`TypeBuilder::finish`].
    Done { ty: Type },
}

/// Assembles one [`Type`] value. Methods consume the builder and return the
/// advanced builder, so a finished `Type` can only come out of a call
/// sequence the protocol accepts.
pub struct TypeBuilder {
    pub state: BuilderState,
}

impl TypeBuilder {
    /// A fresh builder with no open scope.
    pub fn new() -> (r: TypeBuilder)
        ensures
            r.state is Start,
    {
        TypeBuilder { state: BuilderState::Start }
    }

    /// Produces a finished unit-struct definition in a single step.
    pub fn unit_struct_type(self, name: String) -> (r: Result<TypeBuilder, BuildError>)
        ensures
            self.state is Start ==> (r matches Ok(b) && b.state == (BuilderState::Done {
                ty: Type::UnitStruct { name: name },
            })),
            !(self.state is Start) ==> r == Err::<TypeBuilder, BuildError>(BuildError::InvalidCall),
    {
        match self.state {
            BuilderState::Start => Ok(
                TypeBuilder { state: BuilderState::Done { ty: Type::UnitStruct { name } } },
            ),
            _ => Err(BuildError::InvalidCall),
        }
    }

    /// Produces a finished newtype-struct definition in a single step.
    pub fn newtype_struct_type(self, name: String, inner: TypeId) -> (r: Result<
        TypeBuilder,
        BuildError,
    >)
        ensures
            self.state is Start ==> (r matches Ok(b) && b.state == (BuilderState::Done {
                ty: Type::NewtypeStruct { name: name, inner: inner },
            })),
            !(self.state is Start) ==> r == Err::<TypeBuilder, BuildError>(BuildError::InvalidCall),
    {
        match self.state {
            BuilderState::Start => Ok(
                TypeBuilder {
                    state: BuilderState::Done { ty: Type::NewtypeStruct { name, inner } },
                },
            ),
            _ => Err(BuildError::InvalidCall),
        }
    }

    /// Opens a struct's field list; exactly `expected` calls of
    /// [`Self::field`] must follow before [`Self::end`].
    pub fn struct_type(self, name: String, expected: usize) -> (r: Result<TypeBuilder, BuildError>)
        ensures
            self.state is Start ==> (r matches Ok(b) && b.state matches BuilderState::Struct {
                name: n,
                expected: e,
                fields,
            } && n == name && e == expected && fields@ == Seq::<Field>::empty()),
            !(self.state is Start) ==> r == Err::<TypeBuilder, BuildError>(BuildError::InvalidCall),
    {
        match self.state {
            BuilderState::Start => Ok(
                TypeBuilder {
                    state: BuilderState::Struct { name, expected, fields: Vec::new() },
                },
            ),
            _ => Err(BuildError::InvalidCall),
        }
    }

    /// Opens a tuple struct's element list; exactly `expected` calls of
    /// [`Self::element`] must follow before [`Self::end`].
    pub fn tuple_struct_type(self, name: String, expected: usize) -> (r: Result<
        TypeBuilder,
        BuildError,
    >)
        ensures
            self.state is Start ==> (r matches Ok(b) && b.state matches BuilderState::Tuple {
                name: n,
                expected: e,
                elements,
            } && n == name && e == expected && elements@ == Seq::<TypeId>::empty()),
            !(self.state is Start) ==> r == Err::<TypeBuilder, BuildError>(BuildError::InvalidCall),
    {
        match self.state {
            BuilderState::Start => Ok(
                TypeBuilder {
                    state: BuilderState::Tuple { name, expected, elements: Vec::new() },
                },
            ),
            _ => Err(BuildError::InvalidCall),
        }
    }

    /// Opens an enum's variant list; exactly `expected` variants must be
    /// added before [`Self::end`].
    pub fn enum_type(self, name: String, expected: usize) -> (r: Result<TypeBuilder, BuildError>)
        ensures
            self.state is Start ==> (r matches Ok(b) && b.state matches BuilderState::Enum {
                name: n,
                expected: e,
                variants,
            } && n == name && e == expected && variants@ == Seq::<Variant>::empty()),
            !(self.state is Start) ==> r == Err::<TypeBuilder, BuildError>(BuildError::InvalidCall),
    {
        match self.state {
            BuilderState::Start => Ok(
                TypeBuilder {
                    state: BuilderState::Enum { name, expected, variants: Vec::new() },
                },
            ),
            _ => Err(BuildError::InvalidCall),
        }
    }

    /// Appends one named field. Valid only while a struct's or a
    /// struct-variant's field list is open.
    pub fn field(self, fname: String, id: TypeId) -> (r: Result<TypeBuilder, BuildError>)
        ensures
            match self.state {
                BuilderState::Struct { name, expected, fields } => r matches Ok(b) && (b.state
                    matches BuilderState::Struct { name: n2, expected: e2, fields: f2 } && n2
                    == name && e2 == expected && f2@ == fields@.push(
                    Field { name: fname, id: id },
                )),
                BuilderState::EnumVariant { name, expected, variants, vname, vexpected, vfields } => r
                    matches Ok(b) && (b.state matches BuilderState::EnumVariant {
                    name: n2,
                    expected: e2,
                    variants: v2,
                    vname: vn2,
                    vexpected: ve2,
                    vfields: vf2,
                } && n2 == name && e2 == expected && v2 == variants && vn2 == vname && ve2
                    == vexpected && vf2@ == vfields@.push(Field { name: fname, id: id })),
                _ => r == Err::<TypeBuilder, BuildError>(BuildError::InvalidCall),
            },
    {
        match self.state {
            BuilderState::Struct { name, expected, mut fields } => {
                fields.push(Field { name: fname, id });
                Ok(TypeBuilder { state: BuilderState::Struct { name, expected, fields } })
            },
            BuilderState::EnumVariant { name, expected, variants, vname, vexpected, mut vfields } => {
                vfields.push(Field { name: fname, id });
                Ok(
                    TypeBuilder {
                        state: BuilderState::EnumVariant {
                            name,
                            expected,
                            variants,
                            vname,
                            vexpected,
                            vfields,
                        },
                    },
                )
            },
            _ => Err(BuildError::InvalidCall),
        }
    }

    /// Appends one positional element. Valid only while a tuple struct's
    /// element list is open.
    pub fn element(self, id: TypeId) -> (r: Result<TypeBuilder, BuildError>)
        ensures
            match self.state {
                BuilderState::Tuple { name, expected, elements } => r matches Ok(b) && (b.state
                    matches BuilderState::Tuple { name: n2, expected: e2, elements: el2 } && n2
                    == name && e2 == expected && el2@ == elements@.push(id)),
                _ => r == Err::<TypeBuilder, BuildError>(BuildError::InvalidCall),
            },
    {
        match self.state {
            BuilderState::Tuple { name, expected, mut elements } => {
                elements.push(id);
                Ok(TypeBuilder { state: BuilderState::Tuple { name, expected, elements } })
            },
            _ => Err(BuildError::InvalidCall),
        }
    }

    /// Appends one unit variant. Valid only while an enum's variant list is
    /// open and no variant scope is.
    pub fn unit_variant(self, vname: String) -> (r: Result<TypeBuilder, BuildError>)
        ensures
            match self.state {
                BuilderState::Enum { name, expected, variants } => r matches Ok(b) && (b.state
                    matches BuilderState::Enum { name: n2, expected: e2, variants: v2 } && n2
                    == name && e2 == expected && v2@ == variants@.push(
                    Variant::Unit { name: vname },
                )),
                _ => r == Err::<TypeBuilder, BuildError>(BuildError::InvalidCall),
            },
    {
        match self.state {
            BuilderState::Enum { name, expected, mut variants } => {
                variants.push(Variant::Unit { name: vname });
                Ok(TypeBuilder { state: BuilderState::Enum { name, expected, variants } })
            },
            _ => Err(BuildError::InvalidCall),
        }
    }

    /// Appends one newtype variant. Valid only while an enum's variant list
    /// is open and no variant scope is.
    pub fn newtype_variant(self, vname: String, inner: TypeId) -> (r: Result<
        TypeBuilder,
        BuildError,
    >)
        ensures
            match self.state {
                BuilderState::Enum { name, expected, variants } => r matches Ok(b) && (b.state
                    matches BuilderState::Enum { name: n2, expected: e2, variants: v2 } && n2
                    == name && e2 == expected && v2@ == variants@.push(
                    Variant::Newtype { name: vname, inner: inner },
                )),
                _ => r == Err::<TypeBuilder, BuildError>(BuildError::InvalidCall),
            },
    {
        match self.state {
            BuilderState::Enum { name, expected, mut variants } => {
                variants.push(Variant::Newtype { name: vname, inner });
                Ok(TypeBuilder { state: BuilderState::Enum { name, expected, variants } })
            },
            _ => Err(BuildError::InvalidCall),
        }
    }

    /// Opens a struct-style variant's field list inside an open enum scope;
    /// exactly `vexpected` calls of [`Self::field`] must follow before the
    /// [`Self::end`] that closes the variant.
    pub fn struct_variant(self, vname: String, vexpected: usize) -> (r: Result<
        TypeBuilder,
        BuildError,
    >)
        ensures
            match self.state {
                BuilderState::Enum { name, expected, variants } => r matches Ok(b) && (b.state
                    matches BuilderState::EnumVariant {
                    name: n2,
                    expected: e2,
                    variants: v2,
                    vname: vn2,
                    vexpected: ve2,
                    vfields: vf2,
                } && n2 == name && e2 == expected && v2 == variants && vn2 == vname && ve2
                    == vexpected && vf2@ == Seq::<Field>::empty()),
                _ => r == Err::<TypeBuilder, BuildError>(BuildError::InvalidCall),
            },
    {
        match self.state {
            BuilderState::Enum { name, expected, variants } => Ok(
                TypeBuilder {
                    state: BuilderState::EnumVariant {
                        name,
                        expected,
                        variants,
                        vname,
                        vexpected,
                        vfields: Vec::new(),
                    },
                },
            ),
            _ => Err(BuildError::InvalidCall),
        }
    }

    /// Closes the innermost open scope: a struct's or tuple struct's list
    /// (finishing the definition), a struct-variant's field list (appending
    /// the variant to the enclosing enum), or an enum's variant list
    /// (finishing the definition). Fails with a [`BuildError::CountMismatch`]
    /// when the scope holds a different number of entries than was declared,
    /// and with [`BuildError::InvalidCall`] when no scope is open.
    pub fn end(self) -> (r: Result<TypeBuilder, BuildError>)
        ensures
            match self.state {
                BuilderState::Struct { name, expected, fields } => if fields@.len() == expected {
                    r matches Ok(b) && b.state == (BuilderState::Done {
                        ty: Type::Struct { name: name, fields: fields },
                    })
                } else {
                    r matches Err(e) && (e matches BuildError::CountMismatch { expected: e2, got } &&
                    e2 == expected && got == fields@.len())
                },
                BuilderState::Tuple { name, expected, elements } => if elements@.len() == expected {
                    r matches Ok(b) && b.state == (BuilderState::Done {
                        ty: Type::TupleStruct { name: name, elements: elements },
                    })
                } else {
                    r matches Err(e) && (e matches BuildError::CountMismatch { expected: e2, got } &&
                    e2 == expected && got == elements@.len())
                },
                BuilderState::EnumVariant { name, expected, variants, vname, vexpected, vfields } => if
                    vfields@.len() == vexpected {
                    r matches Ok(b) && (b.state matches BuilderState::Enum {
                        name: n2,
                        expected: e2,
                        variants: v2,
                    } && n2 == name && e2 == expected && v2@ == variants@.push(
                        Variant::Struct { name: vname, fields: vfields },
                    ))
                } else {
                    r matches Err(e) && (e matches BuildError::CountMismatch { expected: e2, got } &&
                    e2 == vexpected && got == vfields@.len())
                },
                BuilderState::Enum { name, expected, variants } => if variants@.len() == expected {
                    r matches Ok(b) && b.state == (BuilderState::Done {
                        ty: Type::Enum { name: name, variants: variants },
                    })
                } else {
                    r matches Err(e) && (e matches BuildError::CountMismatch { expected: e2, got } &&
                    e2 == expected && got == variants@.len())
                },
                _ => r == Err::<TypeBuilder, BuildError>(BuildError::InvalidCall),
            },
    {
        match self.state {
            BuilderState::Struct { name, expected, fields } => {
                if fields.len() == expected {
                    Ok(
                        TypeBuilder {
                            state: BuilderState::Done { ty: Type::Struct { name, fields } },
                        },
                    )
                } else {
                    Err(BuildError::CountMismatch { expected, got: fields.len() })
                }
            },
            BuilderState::Tuple { name, expected, elements } => {
                if elements.len() == expected {
                    Ok(
                        TypeBuilder {
                            state: BuilderState::Done {
                                ty: Type::TupleStruct { name, elements },
                            },
                        },
                    )
                } else {
                    Err(BuildError::CountMismatch { expected, got: elements.len() })
                }
            },
            BuilderState::EnumVariant { name, expected, mut variants, vname, vexpected, vfields } => {
                if vfields.len() == vexpected {
                    variants.push(Variant::Struct { name: vname, fields: vfields });
                    Ok(TypeBuilder { state: BuilderState::Enum { name, expected, variants } })
                } else {
                    Err(BuildError::CountMismatch { expected: vexpected, got: vfields.len() })
                }
            },
            BuilderState::Enum { name, expected, variants } => {
                if variants.len() == expected {
                    Ok(
                        TypeBuilder {
                            state: BuilderState::Done { ty: Type::Enum { name, variants } },
                        },
                    )
                } else {
                    Err(BuildError::CountMismatch { expected, got: variants.len() })
                }
            },
            _ => Err(BuildError::InvalidCall),
        }
    }

    /// Hands out the finished definition. Valid only once the outer scope was
    /// closed.
    pub fn finish(self) -> (r: Result<Type, BuildError>)
        ensures
            match self.state {
                BuilderState::Done { ty } => r matches Ok(t) && t == ty,
                _ => r == Err::<Type, BuildError>(BuildError::InvalidCall),
            },
    {
        match self.state {
            BuilderState::Done { ty } => Ok(ty),
            _ => Err(BuildError::InvalidCall),
        }
    }
}

} // verus!
