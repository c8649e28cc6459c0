use vstd::prelude::*;

use crate::ast::types::{type_text, Type};
use crate::codegen::simple::{IndentCodeGen, ModuleMemberCodeGen, PureCodeGen, SimpleCodeGen};
use crate::text::{deeper, deeper_level, indent, indent_text};

verus! {

/// A struct or union with members. An anonymous one has an empty name and
/// is always generated in pure mode.
pub struct Struct {
    pub name: String,
    pub members: Vec<StructMember>,
    pub is_anonymous: bool,
    pub is_union: bool,
}

pub enum StructMember {
    Field(StructField),
    AnonStruct(Struct),
}

pub struct StructField {
    pub typ: Type,
    pub name: String,
}

pub open spec fn keyword_text(is_union: bool) -> Seq<char> {
    if is_union {
        "union"@
    } else {
        "struct"@
    }
}

pub open spec fn field_text(f: StructField) -> Seq<char> {
    type_text(f.typ) + " "@ + f.name@ + ";"@
}

pub open spec fn member_text_at(m: StructMember, level: nat) -> Seq<char>
    decreases m, 0nat,
{
    match m {
        StructMember::Field(f) => indent_text(level) + field_text(f),
        StructMember::AnonStruct(s) => struct_pure_text(s, level) + ";"@,
    }
}

/// Each member at `level`, each followed by a newline.
pub open spec fn members_text(members: Seq<StructMember>, level: nat) -> Seq<char>
    decreases members, 0nat,
{
    if members.len() == 0 {
        Seq::empty()
    } else {
        members_text(members.drop_last(), level) + member_text_at(members.last(), level) + "\n"@
    }
}

/// The name and a space, unless the aggregate is anonymous.
pub open spec fn tag_text(name: Seq<char>, is_anonymous: bool) -> Seq<char> {
    if is_anonymous {
        Seq::empty()
    } else {
        name + " "@
    }
}

pub open spec fn struct_pure_text(s: Struct, level: nat) -> Seq<char>
    decreases s, 1nat,
{
    indent_text(level) + keyword_text(s.is_union) + " "@ + tag_text(s.name@, s.is_anonymous) + "{\n"@
        + members_text(s.members@, deeper_level(level)) + indent_text(level) + "}"@
}

pub open spec fn struct_member_text(s: Struct, name_prefix: Seq<char>) -> Seq<char> {
    if s.is_anonymous {
        struct_pure_text(s, 0)
    } else {
        "typedef "@ + keyword_text(s.is_union) + " "@ + s.name@ + "__"@ + keyword_text(s.is_union) + " {\n"@
            + members_text(s.members@, 1) + "} "@ + name_prefix + s.name@ + ";"@
    }
}

/// Appends each member at `level`, each followed by a newline.
fn generate_members(out: &mut String, members: &Vec<StructMember>, level: usize)
    ensures
        final(out)@ == old(out)@ + members_text(members@, level as nat),
    decreases members@, 0nat,
{
    let ghost start = out@;
    let mut i: usize = 0;
    while i < members.len()
        invariant
            i <= members.len(),
            out@ == start + members_text(members@.take(i as int), level as nat),
        decreases members.len() - i,
    {
        proof {
            assert(members@.take(i + 1).drop_last() == members@.take(i as int));
            assert(decreases_to!(members@ => members@[i as int]));
        }
        let line = members[i].generate(level);
        out.append(line.as_str());
        out.append("\n");
        i = i + 1;
    }
    proof {
        assert(members@.take(members.len() as int) == members@);
    }
}

impl SimpleCodeGen for StructField {
    open spec fn text(&self) -> Seq<char> {
        field_text(*self)
    }

    fn generate(&self) -> (r: String) {
        let mut s = self.typ.generate();
        s.append(" ");
        s.append(self.name.as_str());
        s.append(";");
        s
    }
}

impl IndentCodeGen for StructMember {
    open spec fn text_at(&self, indent_level: nat) -> Seq<char> {
        member_text_at(*self, indent_level)
    }

    fn generate(&self, indent: usize) -> (r: String)
        decreases *self, 0nat,
    {
        match self {
            StructMember::Field(f) => {
                let mut s = crate::text::indent(indent);
                let t = f.generate();
                s.append(t.as_str());
                s
            },
            StructMember::AnonStruct(st) => {
                let mut s = st.generate_pure(indent);
                s.append(";");
                s
            },
        }
    }
}

impl PureCodeGen for Struct {
    open spec fn pure_text(&self, indent_level: nat) -> Seq<char> {
        struct_pure_text(*self, indent_level)
    }

    fn generate_pure(&self, indent_level: usize) -> (r: String)
        decreases *self, 1nat,
    {
        let prefix = indent(indent_level);
        let mut s = String::from_str(prefix.as_str());
        s.append(if self.is_union { "union" } else { "struct" });
        s.append(" ");
        if !self.is_anonymous {
            s.append(self.name.as_str());
            s.append(" ");
        }
        s.append("{\n");
        proof {
            assert(decreases_to!(*self => self.members@));
        }
        generate_members(&mut s, &self.members, deeper(indent_level));
        s.append(prefix.as_str());
        s.append("}");
        proof {
            assert(s@ =~= struct_pure_text(*self, indent_level as nat));
        }
        s
    }
}

impl ModuleMemberCodeGen for Struct {
    open spec fn member_text(&self, name_prefix: Seq<char>) -> Seq<char> {
        struct_member_text(*self, name_prefix)
    }

    fn generate(&self, name_prefix: &String) -> (r: String) {
        if self.is_anonymous {
            return self.generate_pure(0);
        }
        let keyword = if self.is_union { "union" } else { "struct" };
        let mut s = String::from_str("typedef ");
        s.append(keyword);
        s.append(" ");
        s.append(self.name.as_str());
        s.append("__");
        s.append(keyword);
        s.append(" {\n");
        generate_members(&mut s, &self.members, 1);
        s.append("} ");
        s.append(name_prefix.as_str());
        s.append(self.name.as_str());
        s.append(";");
        s
    }
}

/// An anonymous struct generated in member mode gives exactly its
/// pure-mode text at the outermost level, whatever the prefix.
pub proof fn lemma_anonymous_struct_is_pure(x: Struct, name_prefix: Seq<char>)
    requires
        x.is_anonymous,
    ensures
        struct_member_text(x, name_prefix) == struct_pure_text(x, 0),
{
}

} // verus!
