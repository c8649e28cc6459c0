use vstd::prelude::*;

use crate::codegen::simple::SimpleCodeGen;

verus! {

/// A name, either plain or qualified by the module that declares it.
pub enum Identifier {
    Plain(String),
    Module(String, String),
}

/// The mangled prefix that a module named `module` gives its members.
pub open spec fn module_prefix_text(module: Seq<char>) -> Seq<char> {
    "mod__"@ + module + "__"@
}

pub open spec fn identifier_text(i: Identifier) -> Seq<char> {
    match i {
        Identifier::Plain(name) => name@,
        Identifier::Module(parent, child) => module_prefix_text(parent@) + child@,
    }
}

/// The mangled prefix for the members of module `module`.
pub fn module_prefix(module: &String) -> (r: String)
    ensures
        r@ == module_prefix_text(module@),
{
    let mut s = String::from_str("mod__");
    s.append(module.as_str());
    s.append("__");
    s
}

impl SimpleCodeGen for Identifier {
    open spec fn text(&self) -> Seq<char> {
        identifier_text(*self)
    }

    fn generate(&self) -> (r: String) {
        match self {
            Identifier::Plain(name) => String::from_str(name.as_str()),
            Identifier::Module(parent, child) => {
                let mut s = module_prefix(parent);
                s.append(child.as_str());
                s
            },
        }
    }
}

} // verus!
