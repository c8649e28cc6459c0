use vstd::prelude::*;

use crate::ast::toplevel::{generate_toplevels, toplevel_text, toplevels_text, TopLevel};

verus! {

/// A whole program: its top-level items in source order.
pub struct Program {
    pub statements: Vec<TopLevel>,
}

/// The program's text: each item with no name prefix, each followed by a
/// newline, in the order of the item list.
pub open spec fn program_text(p: Program) -> Seq<char> {
    toplevels_text(p.statements@, Seq::empty())
}

impl Program {
    /// Generates the program's text.
    pub fn generate(&self) -> (r: String)
        ensures
            r@ == program_text(*self),
    {
        let mut s = String::new();
        let prefix = String::new();
        generate_toplevels(&mut s, &self.statements, &prefix);
        proof {
            assert(s@ =~= program_text(*self));
        }
        s
    }
}

/// The text of a list of items is the text of its first part followed by
/// the text of the rest.
pub proof fn lemma_toplevels_text_append(a: Seq<TopLevel>, b: Seq<TopLevel>, name_prefix: Seq<char>)
    ensures
        toplevels_text(a + b, name_prefix) == toplevels_text(a, name_prefix) + toplevels_text(b, name_prefix),
    decreases b.len(),
{
    if b.len() == 0 {
        assert(a + b == a);
    } else {
        lemma_toplevels_text_append(a, b.drop_last(), name_prefix);
        assert((a + b).drop_last() == a + b.drop_last());
        assert((a + b).last() == b.last());
    }
}

/// Order is kept: the text of the `n`-th item stands after the text of all
/// the items before it and before the text of all the items after it.
pub proof fn lemma_program_text_in_order(p: Program, n: int)
    requires
        0 <= n < p.statements@.len(),
    ensures
        program_text(p) == toplevels_text(p.statements@.take(n), Seq::empty()) + toplevel_text(
            p.statements@[n],
            Seq::empty(),
        ) + "\n"@ + toplevels_text(p.statements@.skip(n + 1), Seq::empty()),
{
    let items = p.statements@;
    let empty = Seq::<char>::empty();
    let single = seq![items[n]];
    assert(items == items.take(n) + single + items.skip(n + 1));
    lemma_toplevels_text_append(items.take(n) + single, items.skip(n + 1), empty);
    lemma_toplevels_text_append(items.take(n), single, empty);
    assert(single.drop_last() == Seq::<TopLevel>::empty());
    assert(single.last() == items[n]);
    assert(toplevels_text(Seq::<TopLevel>::empty(), empty) == Seq::<char>::empty());
    assert(toplevels_text(single, empty) =~= toplevel_text(items[n], empty) + "\n"@);
}

} // verus!
