use vstd::prelude::*;

use crate::ast::sstruct::{field_text, tag_text, StructField};
use crate::codegen::simple::{ModuleMemberCodeGen, PureCodeGen, SimpleCodeGen};
use crate::text::{deeper, deeper_level, indent, indent_text};

verus! {

/// A union of plain fields. An anonymous one has an empty name and is
/// always generated in pure mode.
pub struct Union {
    pub name: String,
    pub fields: Vec<StructField>,
    pub is_anonymous: bool,
}

/// Each field at `level`, each followed by a newline.
pub open spec fn fields_text(fields: Seq<StructField>, level: nat) -> Seq<char>
    decreases fields.len(),
{
    if fields.len() == 0 {
        Seq::empty()
    } else {
        fields_text(fields.drop_last(), level) + indent_text(level) + field_text(fields.last()) + "\n"@
    }
}

pub open spec fn union_pure_text(u: Union, level: nat) -> Seq<char> {
    indent_text(level) + "union "@ + tag_text(u.name@, u.is_anonymous) + "{\n"@ + fields_text(
        u.fields@,
        deeper_level(level),
    ) + indent_text(level) + "}"@
}

pub open spec fn union_member_text(u: Union, name_prefix: Seq<char>) -> Seq<char> {
    if u.is_anonymous {
        union_pure_text(u, 0)
    } else {
        "typedef union "@ + u.name@ + "__union {\n"@ + fields_text(u.fields@, 1) + "} "@ + name_prefix
            + u.name@ + ";"@
    }
}

/// Appends each field at `level`, each followed by a newline.
fn generate_fields(out: &mut String, fields: &Vec<StructField>, level: usize)
    ensures
        final(out)@ == old(out)@ + fields_text(fields@, level as nat),
{
    let ghost start = out@;
    let prefix = indent(level);
    let mut i: usize = 0;
    while i < fields.len()
        invariant
            i <= fields.len(),
            prefix@ == indent_text(level as nat),
            out@ == start + fields_text(fields@.take(i as int), level as nat),
        decreases fields.len() - i,
    {
        proof {
            assert(fields@.take(i + 1).drop_last() == fields@.take(i as int));
        }
        out.append(prefix.as_str());
        let f = fields[i].generate();
        out.append(f.as_str());
        out.append("\n");
        i = i + 1;
    }
    proof {
        assert(fields@.take(fields.len() as int) == fields@);
    }
}

impl PureCodeGen for Union {
    open spec fn pure_text(&self, indent_level: nat) -> Seq<char> {
        union_pure_text(*self, indent_level)
    }

    fn generate_pure(&self, indent_level: usize) -> (r: String) {
        let prefix = indent(indent_level);
        let mut s = String::from_str(prefix.as_str());
        s.append("union ");
        if !self.is_anonymous {
            s.append(self.name.as_str());
            s.append(" ");
        }
        s.append("{\n");
        generate_fields(&mut s, &self.fields, deeper(indent_level));
        s.append(prefix.as_str());
        s.append("}");
        proof {
            assert(s@ =~= union_pure_text(*self, indent_level as nat));
        }
        s
    }
}

impl ModuleMemberCodeGen for Union {
    open spec fn member_text(&self, name_prefix: Seq<char>) -> Seq<char> {
        union_member_text(*self, name_prefix)
    }

    fn generate(&self, name_prefix: &String) -> (r: String) {
        if self.is_anonymous {
            return self.generate_pure(0);
        }
        let mut s = String::from_str("typedef union ");
        s.append(self.name.as_str());
        s.append("__union {\n");
        generate_fields(&mut s, &self.fields, 1);
        s.append("} ");
        s.append(name_prefix.as_str());
        s.append(self.name.as_str());
        s.append(";");
        s
    }
}

/// An anonymous union generated in member mode gives exactly its
/// pure-mode text at the outermost level, whatever the prefix.
pub proof fn lemma_anonymous_union_is_pure(x: Union, name_prefix: Seq<char>)
    requires
        x.is_anonymous,
    ensures
        union_member_text(x, name_prefix) == union_pure_text(x, 0),
{
}

} // verus!
