use vstd::prelude::*;

use crate::ast::enumm::{enum_pure_text, Enum};
use crate::ast::sstruct::{struct_pure_text, Struct};
use crate::ast::types::{type_text, Type};
use crate::ast::union::{union_pure_text, Union};
use crate::codegen::simple::{ModuleMemberCodeGen, PureCodeGen, SimpleCodeGen};

verus! {

/// A type alias.
pub struct TypeDef {
    pub name: String,
    pub typ: TypeDefInner,
}

/// What an alias stands for: a named type, or an aggregate or enum written
/// out in place.
pub enum TypeDefInner {
    Type(Type),
    Struct(Struct),
    Enum(Enum),
    Union(Union),
}

/// The aliased type; an aggregate or enum is written in pure mode at the
/// outermost level.
pub open spec fn typedef_inner_text(t: TypeDefInner) -> Seq<char> {
    match t {
        TypeDefInner::Type(t) => type_text(t),
        TypeDefInner::Struct(s) => struct_pure_text(s, 0),
        TypeDefInner::Enum(e) => enum_pure_text(e, 0),
        TypeDefInner::Union(u) => union_pure_text(u, 0),
    }
}

pub open spec fn typedef_text(t: TypeDef, name_prefix: Seq<char>) -> Seq<char> {
    "typedef "@ + typedef_inner_text(t.typ) + " "@ + name_prefix + t.name@ + ";"@
}

impl ModuleMemberCodeGen for TypeDef {
    open spec fn member_text(&self, name_prefix: Seq<char>) -> Seq<char> {
        typedef_text(*self, name_prefix)
    }

    fn generate(&self, name_prefix: &String) -> (r: String) {
        let mut s = String::from_str("typedef ");
        let inner = match &self.typ {
            TypeDefInner::Type(t) => t.generate(),
            TypeDefInner::Enum(e) => e.generate_pure(0),
            TypeDefInner::Struct(st) => st.generate_pure(0),
            TypeDefInner::Union(u) => u.generate_pure(0),
        };
        s.append(inner.as_str());
        s.append(" ");
        s.append(name_prefix.as_str());
        s.append(self.name.as_str());
        s.append(";");
        s
    }
}

} // verus!
