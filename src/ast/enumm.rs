use vstd::prelude::*;

use crate::ast::sstruct::tag_text;
use crate::codegen::simple::{ModuleMemberCodeGen, PureCodeGen, SimpleCodeGen};
use crate::text::{deeper, deeper_level, indent, indent_text, int_decimal, int_text};

verus! {

/// An enumeration. An anonymous one has an empty name and is always
/// generated in pure mode.
pub struct Enum {
    pub name: String,
    pub entries: Vec<EnumEntry>,
    pub is_anonymous: bool,
}

/// One enumerator, with its explicit value if it has one.
pub struct EnumEntry {
    pub name: String,
    pub value: Option<i32>,
}

pub open spec fn entry_text(e: EnumEntry) -> Seq<char> {
    e.name@ + match e.value {
        Some(v) => " = "@ + int_text(v as int),
        None => Seq::empty(),
    }
}

/// The first `count` lines of an entry list at `level`: every entry but
/// the last of the whole list is followed by a comma.
pub open spec fn entry_lines_text(entries: Seq<EnumEntry>, count: nat, level: nat) -> Seq<char>
    decreases count,
{
    if count == 0 {
        Seq::empty()
    } else {
        entry_lines_text(entries, (count - 1) as nat, level) + indent_text(level) + entry_text(
            entries[count - 1],
        ) + if count < entries.len() {
            ","@
        } else {
            Seq::empty()
        } + "\n"@
    }
}

pub open spec fn entries_text(entries: Seq<EnumEntry>, level: nat) -> Seq<char> {
    entry_lines_text(entries, entries.len(), level)
}

pub open spec fn enum_pure_text(e: Enum, level: nat) -> Seq<char> {
    indent_text(level) + "enum "@ + tag_text(e.name@, e.is_anonymous) + "{\n"@ + entries_text(
        e.entries@,
        deeper_level(level),
    ) + indent_text(level) + "}"@
}

pub open spec fn enum_member_text(e: Enum, name_prefix: Seq<char>) -> Seq<char> {
    if e.is_anonymous {
        enum_pure_text(e, 0)
    } else {
        "typedef enum "@ + e.name@ + "__enum {\n"@ + entries_text(e.entries@, 1) + "} "@ + name_prefix
            + e.name@ + ";"@
    }
}

/// Appends the entries at `level`, one per line, separated by commas.
fn generate_entries(out: &mut String, entries: &Vec<EnumEntry>, level: usize)
    ensures
        final(out)@ == old(out)@ + entries_text(entries@, level as nat),
{
    let ghost start = out@;
    let prefix = indent(level);
    let mut i: usize = 0;
    while i < entries.len()
        invariant
            i <= entries.len(),
            prefix@ == indent_text(level as nat),
            out@ == start + entry_lines_text(entries@, i as nat, level as nat),
        decreases entries.len() - i,
    {
        out.append(prefix.as_str());
        let e = entries[i].generate();
        out.append(e.as_str());
        if i + 1 < entries.len() {
            out.append(",");
        }
        out.append("\n");
        i = i + 1;
    }
}

impl SimpleCodeGen for EnumEntry {
    open spec fn text(&self) -> Seq<char> {
        entry_text(*self)
    }

    fn generate(&self) -> (r: String) {
        let mut s = String::from_str(self.name.as_str());
        if let Some(val) = self.value {
            s.append(" = ");
            let digits = int_decimal(val as i64);
            s.append(digits.as_str());
        }
        s
    }
}

impl PureCodeGen for Enum {
    open spec fn pure_text(&self, indent_level: nat) -> Seq<char> {
        enum_pure_text(*self, indent_level)
    }

    fn generate_pure(&self, indent_level: usize) -> (r: String) {
        let prefix = indent(indent_level);
        let mut s = String::from_str(prefix.as_str());
        s.append("enum ");
        if !self.is_anonymous {
            s.append(self.name.as_str());
            s.append(" ");
        }
        s.append("{\n");
        generate_entries(&mut s, &self.entries, deeper(indent_level));
        s.append(prefix.as_str());
        s.append("}");
        proof {
            assert(s@ =~= enum_pure_text(*self, indent_level as nat));
        }
        s
    }
}

impl ModuleMemberCodeGen for Enum {
    open spec fn member_text(&self, name_prefix: Seq<char>) -> Seq<char> {
        enum_member_text(*self, name_prefix)
    }

    fn generate(&self, name_prefix: &String) -> (r: String) {
        if self.is_anonymous {
            return self.generate_pure(0);
        }
        let mut s = String::from_str("typedef enum ");
        s.append(self.name.as_str());
        s.append("__enum {\n");
        generate_entries(&mut s, &self.entries, 1);
        s.append("} ");
        s.append(name_prefix.as_str());
        s.append(self.name.as_str());
        s.append(";");
        s
    }
}

/// An anonymous enum generated in member mode gives exactly its
/// pure-mode text at the outermost level, whatever the prefix.
pub proof fn lemma_anonymous_enum_is_pure(x: Enum, name_prefix: Seq<char>)
    requires
        x.is_anonymous,
    ensures
        enum_member_text(x, name_prefix) == enum_pure_text(x, 0),
{
}

} // verus!
