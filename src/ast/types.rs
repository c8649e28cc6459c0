use vstd::prelude::*;

use crate::ast::identifier::{identifier_text, Identifier};
use crate::codegen::simple::SimpleCodeGen;

verus! {

/// The category of a type reference.
pub enum TypeType {
    Simple,
    Struct,
    Enum,
    Union,
}

/// A reference to a type: its category, its name and how many pointer
/// layers wrap it.
pub struct Type {
    pub typetype: TypeType,
    pub name: Identifier,
    pub pointer_layers: usize,
}

/// `n` asterisks.
pub open spec fn stars_text(n: nat) -> Seq<char>
    decreases n,
{
    if n == 0 {
        Seq::empty()
    } else {
        stars_text((n - 1) as nat) + "*"@
    }
}

pub open spec fn category_text(t: TypeType) -> Seq<char> {
    match t {
        TypeType::Simple => Seq::empty(),
        TypeType::Struct => "struct "@,
        TypeType::Enum => "enum "@,
        TypeType::Union => "union "@,
    }
}

pub open spec fn type_text(t: Type) -> Seq<char> {
    category_text(t.typetype) + identifier_text(t.name) + stars_text(t.pointer_layers as nat)
}

impl SimpleCodeGen for Type {
    open spec fn text(&self) -> Seq<char> {
        type_text(*self)
    }

    fn generate(&self) -> (r: String) {
        let mut result = String::new();
        match self.typetype {
            TypeType::Simple => {},
            TypeType::Struct => result.append("struct "),
            TypeType::Enum => result.append("enum "),
            TypeType::Union => result.append("union "),
        }
        let name = self.name.generate();
        result.append(name.as_str());
        let mut i: usize = 0;
        while i < self.pointer_layers
            invariant
                i <= self.pointer_layers,
                result@ == category_text(self.typetype) + identifier_text(self.name) + stars_text(i as nat),
            decreases self.pointer_layers - i,
        {
            result.append("*");
            i = i + 1;
        }
        result
    }
}

} // verus!
