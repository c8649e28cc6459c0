use vstd::prelude::*;

use crate::ast::statement::{body_text, Statement};
use crate::ast::types::{type_text, Type};
use crate::codegen::simple::{IndentCodeGen, ModuleMemberCodeGen, SimpleCodeGen};

verus! {

/// A function's signature; standing alone it is a forward declaration.
pub struct FunctionHeader {
    pub return_type: Type,
    pub name: String,
    pub params: Vec<Parameter>,
    pub is_extern: bool,
}

/// A function: its header and the statements of its body.
pub struct Function {
    pub header: FunctionHeader,
    pub body: Vec<Statement>,
}

pub struct Parameter {
    pub name: String,
    pub typ: Type,
}

pub open spec fn parameter_text(p: Parameter) -> Seq<char> {
    type_text(p.typ) + " "@ + p.name@
}

/// The parameters, separated by `", "`.
pub open spec fn params_text(params: Seq<Parameter>) -> Seq<char>
    decreases params.len(),
{
    if params.len() == 0 {
        Seq::empty()
    } else if params.len() == 1 {
        parameter_text(params[0])
    } else {
        params_text(params.drop_last()) + ", "@ + parameter_text(params.last())
    }
}

pub open spec fn header_text(h: FunctionHeader, name_prefix: Seq<char>) -> Seq<char> {
    (if h.is_extern {
        "extern "@
    } else {
        Seq::empty()
    }) + type_text(h.return_type) + " "@ + name_prefix + h.name@ + "("@ + params_text(h.params@) + ")"@
}

/// A function: its header and an opening brace on one line, each statement
/// at one level of indentation on its own line, then the closing brace.
pub open spec fn function_text(f: Function, name_prefix: Seq<char>) -> Seq<char> {
    header_text(f.header, name_prefix) + " {\n"@ + body_text(f.body@, 1) + "}\n"@
}

impl SimpleCodeGen for Parameter {
    open spec fn text(&self) -> Seq<char> {
        parameter_text(*self)
    }

    fn generate(&self) -> (r: String) {
        let mut s = self.typ.generate();
        s.append(" ");
        s.append(self.name.as_str());
        s
    }
}

impl ModuleMemberCodeGen for FunctionHeader {
    open spec fn member_text(&self, name_prefix: Seq<char>) -> Seq<char> {
        header_text(*self, name_prefix)
    }

    fn generate(&self, name_prefix: &String) -> (r: String) {
        let mut s = String::new();
        if self.is_extern {
            s.append("extern ");
        }
        let t = self.return_type.generate();
        s.append(t.as_str());
        s.append(" ");
        s.append(name_prefix.as_str());
        s.append(self.name.as_str());
        s.append("(");
        let ghost head = s@;
        let mut i: usize = 0;
        while i < self.params.len()
            invariant
                i <= self.params.len(),
                s@ == head + params_text(self.params@.take(i as int)),
            decreases self.params.len() - i,
        {
            proof {
                assert(self.params@.take(i + 1).drop_last() == self.params@.take(i as int));
            }
            if i > 0 {
                s.append(", ");
            }
            let p = self.params[i].generate();
            s.append(p.as_str());
            i = i + 1;
        }
        proof {
            assert(self.params@.take(self.params.len() as int) == self.params@);
        }
        s.append(")");
        proof {
            assert(s@ =~= header_text(*self, name_prefix@));
        }
        s
    }
}

impl ModuleMemberCodeGen for Function {
    open spec fn member_text(&self, name_prefix: Seq<char>) -> Seq<char> {
        function_text(*self, name_prefix)
    }

    fn generate(&self, name_prefix: &String) -> (r: String) {
        let mut s = self.header.generate(name_prefix);
        s.append(" {\n");
        let ghost head = s@;
        let mut i: usize = 0;
        while i < self.body.len()
            invariant
                i <= self.body.len(),
                s@ == head + body_text(self.body@.take(i as int), 1),
            decreases self.body.len() - i,
        {
            proof {
                assert(self.body@.take(i + 1).drop_last() == self.body@.take(i as int));
            }
            let line = self.body[i].generate(1);
            s.append(line.as_str());
            s.append("\n");
            i = i + 1;
        }
        proof {
            assert(self.body@.take(self.body.len() as int) == self.body@);
        }
        s.append("}\n");
        s
    }
}

} // verus!
