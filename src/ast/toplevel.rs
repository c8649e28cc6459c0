use vstd::prelude::*;

use crate::ast::enumm::{enum_member_text, Enum};
use crate::ast::expression::{expr_text, Expression};
use crate::ast::function::{function_text, header_text, Function, FunctionHeader};
use crate::ast::identifier::{module_prefix, module_prefix_text};
use crate::ast::sstruct::{struct_member_text, Struct};
use crate::ast::statement::modifiers_text;
use crate::ast::typedef::{typedef_text, TypeDef};
use crate::ast::types::{type_text, Type};
use crate::ast::union::{union_member_text, Union};
use crate::codegen::simple::{ModuleMemberCodeGen, SimpleCodeGen};

verus! {

/// A top-level item of a program.
///
/// A `Module` only scopes names: at generation its items are flattened
/// into the enclosing scope, their names mangled with the module's.
/// A `PreprocessorDirective` holds the directive's text after the `#`.
pub enum TopLevel {
    VarDeclaration { typ: Type, name: String, right: Option<Expression>, modifier: Vec<String> },
    Import { name: String, is_lib: bool },
    Function(Function),
    Struct(Struct),
    Enum(Enum),
    Union(Union),
    FunctionHeader(FunctionHeader),
    TypeDef(TypeDef),
    Module { name: String, body: Vec<TopLevel> },
    PreprocessorDirective(String),
}

pub open spec fn toplevel_text(t: TopLevel, name_prefix: Seq<char>) -> Seq<char>
    decreases t, 0nat,
{
    match t {
        TopLevel::VarDeclaration { typ, name, right, modifier } => modifiers_text(modifier@) + type_text(typ)
            + " "@ + name_prefix + name@ + match right {
            Some(e) => " = "@ + expr_text(e),
            None => Seq::empty(),
        } + ";"@,
        TopLevel::Import { name, is_lib } => "#include "@ + if is_lib {
            "<"@ + name@ + ">"@
        } else {
            "\""@ + name@ + "\""@
        },
        TopLevel::Function(f) => function_text(f, name_prefix),
        TopLevel::Struct(s) => struct_member_text(s, name_prefix),
        TopLevel::Enum(e) => enum_member_text(e, name_prefix),
        TopLevel::Union(u) => union_member_text(u, name_prefix),
        TopLevel::FunctionHeader(h) => header_text(h, name_prefix) + ";"@,
        TopLevel::TypeDef(t) => typedef_text(t, name_prefix),
        TopLevel::Module { name, body } => toplevels_text(body@, name_prefix + module_prefix_text(name@)),
        TopLevel::PreprocessorDirective(text) => "#"@ + text@,
    }
}

/// Each item under `name_prefix`, each followed by a newline.
pub open spec fn toplevels_text(items: Seq<TopLevel>, name_prefix: Seq<char>) -> Seq<char>
    decreases items, 0nat,
{
    if items.len() == 0 {
        Seq::empty()
    } else {
        toplevels_text(items.drop_last(), name_prefix) + toplevel_text(items.last(), name_prefix) + "\n"@
    }
}

/// Appends each item under `name_prefix`, each followed by a newline.
pub fn generate_toplevels(out: &mut String, items: &Vec<TopLevel>, name_prefix: &String)
    ensures
        final(out)@ == old(out)@ + toplevels_text(items@, name_prefix@),
    decreases items@, 0nat,
{
    let ghost start = out@;
    let mut i: usize = 0;
    while i < items.len()
        invariant
            i <= items.len(),
            out@ == start + toplevels_text(items@.take(i as int), name_prefix@),
        decreases items.len() - i,
    {
        proof {
            assert(items@.take(i + 1).drop_last() == items@.take(i as int));
            assert(decreases_to!(items@ => items@[i as int]));
        }
        let text = items[i].generate(name_prefix);
        out.append(text.as_str());
        out.append("\n");
        i = i + 1;
    }
    proof {
        assert(items@.take(items.len() as int) == items@);
    }
}

impl ModuleMemberCodeGen for TopLevel {
    open spec fn member_text(&self, name_prefix: Seq<char>) -> Seq<char> {
        toplevel_text(*self, name_prefix)
    }

    fn generate(&self, name_prefix: &String) -> (r: String)
        decreases *self, 0nat,
    {
        let mut s = String::new();
        match self {
            TopLevel::VarDeclaration { typ, name, right, modifier } => {
                let mut i: usize = 0;
                while i < modifier.len()
                    invariant
                        i <= modifier.len(),
                        s@ == modifiers_text(modifier@.take(i as int)),
                    decreases modifier.len() - i,
                {
                    proof {
                        assert(modifier@.take(i + 1).drop_last() == modifier@.take(i as int));
                    }
                    s.append(modifier[i].as_str());
                    s.append(" ");
                    i = i + 1;
                }
                proof {
                    assert(modifier@.take(modifier.len() as int) == modifier@);
                }
                let t = typ.generate();
                s.append(t.as_str());
                s.append(" ");
                s.append(name_prefix.as_str());
                s.append(name.as_str());
                if let Some(value) = right {
                    s.append(" = ");
                    let e = value.generate();
                    s.append(e.as_str());
                }
                s.append(";");
            },
            TopLevel::Import { name, is_lib } => {
                s.append("#include ");
                if *is_lib {
                    s.append("<");
                    s.append(name.as_str());
                    s.append(">");
                } else {
                    s.append("\"");
                    s.append(name.as_str());
                    s.append("\"");
                }
            },
            TopLevel::Function(func) => {
                let t = func.generate(name_prefix);
                s.append(t.as_str());
            },
            TopLevel::Struct(struc) => {
                let t = struc.generate(name_prefix);
                s.append(t.as_str());
            },
            TopLevel::Enum(en) => {
                let t = en.generate(name_prefix);
                s.append(t.as_str());
            },
            TopLevel::Union(un) => {
                let t = un.generate(name_prefix);
                s.append(t.as_str());
            },
            TopLevel::FunctionHeader(h) => {
                let t = h.generate(name_prefix);
                s.append(t.as_str());
                s.append(";");
            },
            TopLevel::TypeDef(def) => {
                let t = def.generate(name_prefix);
                s.append(t.as_str());
            },
            TopLevel::Module { name, body } => {
                let mut prefix = String::from_str(name_prefix.as_str());
                let segment = module_prefix(name);
                prefix.append(segment.as_str());
                proof {
                    assert(decreases_to!(*self => body@));
                }
                generate_toplevels(&mut s, body, &prefix);
            },
            TopLevel::PreprocessorDirective(text) => {
                s.append("#");
                s.append(text.as_str());
            },
        }
        proof {
            assert(s@ =~= toplevel_text(*self, name_prefix@));
        }
        s
    }
}

} // verus!
