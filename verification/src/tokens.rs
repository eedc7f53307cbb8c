use vstd::prelude::*;

verus! {

/// Which pair of delimiters bounds a nested token group.
#[derive(Debug, Clone, Copy, PartialEq, Eq, Structural)]
pub enum Delimiter {
    Paren,
    Bracket,
    Brace,
}

/// An identifier token, carrying its verbatim text and source position.
#[derive(Debug, PartialEq, Eq)]
pub struct Ident {
    pub text: String,
    pub pos: usize,
}

/// A literal token (number, string, ...), kept verbatim.
#[derive(Debug, PartialEq, Eq)]
pub struct Literal {
    pub text: String,
    pub pos: usize,
}

/// A punctuation token.
#[derive(Debug, PartialEq, Eq)]
pub struct Punct {
    pub ch: char,
    pub pos: usize,
}

/// One node of a plain token tree: a leaf, or a delimited group of trees.
/// This is the shape of what the host hands in and takes back.
#[derive(Debug, PartialEq, Eq)]
pub enum Tree {
    Ident(Ident),
    Literal(Literal),
    Punct(Punct),
    Group(Delimiter, Vec<Tree>, usize),
}

/// A plain token stream: a sequence of token trees.
#[derive(Debug, PartialEq, Eq)]
pub struct TokenStream(pub Vec<Tree>);

/// Mathematical model of an identifier token.
#[verifier::ext_equal]
pub struct IdentV {
    pub text: Seq<char>,
    pub pos: usize,
}

/// Mathematical model of a literal token.
#[verifier::ext_equal]
pub struct LiteralV {
    pub text: Seq<char>,
    pub pos: usize,
}

/// Mathematical model of a punctuation token.
#[verifier::ext_equal]
pub struct PunctV {
    pub ch: char,
    pub pos: usize,
}

/// Mathematical model of a plain token tree.
#[verifier::ext_equal]
pub enum TreeV {
    Ident(IdentV),
    Literal(LiteralV),
    Punct(PunctV),
    Group(Delimiter, Seq<TreeV>, usize),
}

pub open spec fn ident_view(i: Ident) -> IdentV {
    IdentV { text: i.text@, pos: i.pos }
}

pub open spec fn literal_view(l: Literal) -> LiteralV {
    LiteralV { text: l.text@, pos: l.pos }
}

pub open spec fn punct_view(p: Punct) -> PunctV {
    PunctV { ch: p.ch, pos: p.pos }
}

pub open spec fn tree_view(t: Tree) -> TreeV
    decreases t,
{
    match t {
        Tree::Ident(i) => TreeV::Ident(ident_view(i)),
        Tree::Literal(l) => TreeV::Literal(literal_view(l)),
        Tree::Punct(p) => TreeV::Punct(punct_view(p)),
        Tree::Group(d, ts, p) => TreeV::Group(d, trees_view(ts@), p),
    }
}

pub open spec fn trees_view(ts: Seq<Tree>) -> Seq<TreeV>
    decreases ts,
{
    if ts.len() == 0 {
        Seq::empty()
    } else {
        seq![tree_view(ts[0])] + trees_view(ts.drop_first())
    }
}

pub broadcast proof fn lemma_trees_view_len(ts: Seq<Tree>)
    ensures
        (#[trigger] trees_view(ts)).len() == ts.len(),
    decreases ts,
{
    if ts.len() != 0 {
        lemma_trees_view_len(ts.drop_first());
    }
}

pub broadcast proof fn lemma_trees_view_index(ts: Seq<Tree>, i: int)
    requires
        0 <= i < ts.len(),
    ensures
        #[trigger] trees_view(ts)[i] == tree_view(ts[i]),
    decreases ts,
{
    lemma_trees_view_len(ts);
    if i > 0 {
        lemma_trees_view_index(ts.drop_first(), i - 1);
    }
}

pub broadcast proof fn lemma_trees_view_push(s: Seq<Tree>, t: Tree)
    ensures
        #[trigger] trees_view(s.push(t)) == trees_view(s) + seq![tree_view(t)],
    decreases s,
{
    reveal_with_fuel(trees_view, 3);
    lemma_trees_view_len(s);
    if s.len() == 0 {
        assert(s.push(t) =~= seq![t]);
        assert(s.push(t).drop_first() =~= Seq::<Tree>::empty());
        assert(trees_view(s.push(t)) =~= trees_view(s) + seq![tree_view(t)]);
    } else {
        assert(s.push(t)[0] == s[0]);
        assert(s.push(t).drop_first() =~= s.drop_first().push(t));
        lemma_trees_view_push(s.drop_first(), t);
        assert(trees_view(s.push(t)) == seq![tree_view(s[0])] + trees_view(s.push(t).drop_first()));
        assert(trees_view(s.push(t)) =~= trees_view(s) + seq![tree_view(t)]);
    }
}

impl View for TokenStream {
    type V = Seq<TreeV>;

    open spec fn view(&self) -> Seq<TreeV> {
        trees_view(self.0@)
    }
}

/// The source position a token tree carries.
pub open spec fn spec_tree_pos(t: TreeV) -> usize {
    match t {
        TreeV::Ident(i) => i.pos,
        TreeV::Literal(l) => l.pos,
        TreeV::Punct(p) => p.pos,
        TreeV::Group(_, _, p) => p,
    }
}

impl Tree {
    /// The source position of this token tree.
    pub fn pos(&self) -> (r: usize)
        ensures
            r == spec_tree_pos(tree_view(*self)),
    {
        match self {
            Tree::Ident(i) => i.pos,
            Tree::Literal(l) => l.pos,
            Tree::Punct(p) => p.pos,
            Tree::Group(_, _, p) => *p,
        }
    }
}

} // verus!
