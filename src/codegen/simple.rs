use vstd::prelude::*;

verus! {

/// Generation of a node whose text depends on nothing but the node.
pub trait SimpleCodeGen {
    /// The text that `generate` produces.
    spec fn text(&self) -> Seq<char>;

    fn generate(&self) -> (r: String)
        ensures
            r@ == self.text(),
    ;
}

/// Generation of a node that is laid out at an indentation level.
pub trait IndentCodeGen {
    /// The text that `generate` produces at `indent_level`.
    spec fn text_at(&self, indent_level: nat) -> Seq<char>;

    fn generate(&self, indent_level: usize) -> (r: String)
        ensures
            r@ == self.text_at(indent_level as nat),
    ;
}

/// Member-mode generation: a declaration whose visible name carries the
/// module-mangled `name_prefix`.
pub trait ModuleMemberCodeGen {
    /// The text that `generate` produces under `name_prefix`.
    spec fn member_text(&self, name_prefix: Seq<char>) -> Seq<char>;

    fn generate(&self, name_prefix: &String) -> (r: String)
        ensures
            r@ == self.member_text(name_prefix@),
    ;
}

/// Pure-mode generation: a bare body with no typedef wrapper and no prefix,
/// its braces indented to `indent_level`.
pub trait PureCodeGen {
    /// The text that `generate_pure` produces at `indent_level`.
    spec fn pure_text(&self, indent_level: nat) -> Seq<char>;

    fn generate_pure(&self, indent_level: usize) -> (r: String)
        ensures
            r@ == self.pure_text(indent_level as nat),
    ;
}

} // verus!
