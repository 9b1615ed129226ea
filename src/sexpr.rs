//! The expression tree and the queries over it.
use vstd::prelude::*;
use crate::text::{chars_of, chars_eq, append_text, append_decimal, decimal_text};
use crate::decimal::{Decimal, decimal_of, parse_decimal};

verus! {

/// Mathematical form of a parsed expression: a token or an ordered list.
pub enum Tree {
    Atom(Seq<char>),
    List(Seq<Tree>),
}

/// One parsed expression: a token (a bare symbol, or a quoted string with its
/// escapes resolved) or a list of expressions.
#[derive(Debug)]
pub enum SExpr {
    Atom(String),
    List(Vec<SExpr>),
}

/// Error of an import: a message and a source line, which is never filled.
#[derive(Debug)]
pub struct KicadError {
    pub message: String,
    pub line: Option<usize>,
}

/// The text that describes an error: its message, after the line when it is
/// known.
pub open spec fn error_text(message: Seq<char>, line: Option<usize>) -> Seq<char> {
    match line {
        Some(n) => "KiCAD error at line "@ + decimal_text(n as nat) + ": "@ + message,
        None => "KiCAD error: "@ + message,
    }
}

impl KicadError {
    /// The description of the error, for people.
    pub fn describe(&self) -> (r: String)
        ensures
            r@ == error_text(self.message@, self.line),
    {
        match self.line {
            Some(n) => {
                let mut out = "KiCAD error at line ".to_owned();
                append_decimal(&mut out, n);
                append_text(&mut out, ": ");
                append_text(&mut out, self.message.as_str());
                out
            },
            None => {
                let mut out = "KiCAD error: ".to_owned();
                append_text(&mut out, self.message.as_str());
                out
            },
        }
    }

    /// An error with the given message and no line.
    pub fn new(message: &str) -> (r: KicadError)
        ensures
            r.message@ == message@,
            r.line is None,
    {
        KicadError { message: message.to_owned(), line: None }
    }
}

impl View for SExpr {
    type V = Tree;

    open spec fn view(&self) -> Tree
        decreases self,
    {
        match self {
            SExpr::Atom(s) => Tree::Atom(s@),
            SExpr::List(l) => Tree::List(
                Seq::new(
                    l.len() as nat,
                    |i: int|
                        if 0 <= i < l.len() {
                            l[i].view()
                        } else {
                            Tree::Atom(seq![])
                        },
                ),
            ),
        }
    }
}

impl PartialEq for SExpr {
    /// Two expressions are equal when they have the same tree.
    fn eq(&self, other: &SExpr) -> (r: bool)
        decreases self,
    {
        match (self, other) {
            (SExpr::Atom(a), SExpr::Atom(b)) => crate::text::text_eq(a.as_str(), b.as_str()),
            (SExpr::List(a), SExpr::List(b)) => {
                proof {
                    lemma_items_view(a);
                    lemma_items_view(b);
                }
                if a.len() != b.len() {
                    assert(items_of(self@).len() != items_of(other@).len());
                    return false;
                }
                let mut i: usize = 0;
                while i < a.len()
                    invariant
                        *self == SExpr::List(*a),
                        *other == SExpr::List(*b),
                        a@.len() == b@.len(),
                        i <= a@.len(),
                        items_of(self@).len() == a@.len(),
                        items_of(other@).len() == b@.len(),
                        forall|k: int| 0 <= k < a@.len() ==> #[trigger] items_of(self@)[k] == a@[k]@,
                        forall|k: int| 0 <= k < b@.len() ==> #[trigger] items_of(other@)[k] == b@[k]@,
                        forall|k: int| 0 <= k < i ==> a@[k]@ == b@[k]@,
                    decreases a.len() - i,
                {
                    proof {
                        vstd::std_specs::vec::axiom_vec_index_decreases(*a, i as int);
                        assert(decreases_to!(*self => *a));
                    }
                    if !a[i].eq(&b[i]) {
                        assert(items_of(self@)[i as int] != items_of(other@)[i as int]);
                        return false;
                    }
                    i = i + 1;
                }
                assert(items_of(self@) =~= items_of(other@));
                true
            },
            (SExpr::Atom(_), SExpr::List(_)) => false,
            (SExpr::List(_), SExpr::Atom(_)) => false,
        }
    }
}

impl vstd::std_specs::cmp::PartialEqSpecImpl for SExpr {
    open spec fn obeys_eq_spec() -> bool {
        true
    }

    open spec fn eq_spec(&self, other: &SExpr) -> bool {
        self@ == other@
    }
}

/// The text of a token.
pub open spec fn atom_of(e: Tree) -> Option<Seq<char>> {
    match e {
        Tree::Atom(s) => Some(s),
        Tree::List(_) => None,
    }
}

/// The children of a list; a token has none.
pub open spec fn items_of(e: Tree) -> Seq<Tree> {
    match e {
        Tree::List(l) => l,
        Tree::Atom(_) => seq![],
    }
}

/// The first element of a list, when it is a token.
pub open spec fn tag_of(e: Tree) -> Option<Seq<char>> {
    match e {
        Tree::List(l) => if l.len() > 0 {
            atom_of(l[0])
        } else {
            None
        },
        Tree::Atom(_) => None,
    }
}

pub open spec fn has_tag(e: Tree, t: Seq<char>) -> bool {
    tag_of(e) == Some(t)
}

/// The elements of `l[0..n]` tagged `t`, in order.
pub open spec fn tagged_upto(l: Seq<Tree>, t: Seq<char>, n: int) -> Seq<Tree>
    decreases n,
{
    if n <= 0 {
        seq![]
    } else {
        let p = tagged_upto(l, t, n - 1);
        if has_tag(l[n - 1], t) {
            p.push(l[n - 1])
        } else {
            p
        }
    }
}

/// The direct children of `e` tagged `t`, in order.
pub open spec fn find_all_spec(e: Tree, t: Seq<char>) -> Seq<Tree> {
    tagged_upto(items_of(e), t, items_of(e).len() as int)
}

/// The first of `l[i..]` tagged `t`.
pub open spec fn first_tagged_from(l: Seq<Tree>, t: Seq<char>, i: int) -> Option<Tree>
    decreases l.len() - i,
{
    if 0 <= i < l.len() {
        if has_tag(l[i], t) {
            Some(l[i])
        } else {
            first_tagged_from(l, t, i + 1)
        }
    } else {
        None
    }
}

/// The first direct child of `e` tagged `t`.
pub open spec fn find_spec(e: Tree, t: Seq<char>) -> Option<Tree> {
    first_tagged_from(items_of(e), t, 0)
}

/// The `i`-th child of `e`.
pub open spec fn get_spec(e: Tree, i: int) -> Option<Tree> {
    if 0 <= i < items_of(e).len() {
        Some(items_of(e)[i])
    } else {
        None
    }
}

/// The text of the `i`-th child of `e`, when it is a token.
pub open spec fn get_atom_spec(e: Tree, i: int) -> Option<Seq<char>> {
    match get_spec(e, i) {
        Some(c) => atom_of(c),
        None => None,
    }
}

/// The number that the `i`-th child of `e` writes.
pub open spec fn get_number_spec(e: Tree, i: int) -> Option<Decimal> {
    match get_atom_spec(e, i) {
        Some(t) => decimal_of(t),
        None => None,
    }
}

/// The scan of `property`: the first child list of `l[i..]` that begins with
/// the token `key` gives its second element's text; tokens, empty lists and
/// lists that begin with a list are passed over.
pub open spec fn property_from(l: Seq<Tree>, key: Seq<char>, i: int) -> Option<Seq<char>>
    decreases l.len() - i,
{
    if 0 <= i < l.len() {
        match l[i] {
            Tree::List(c) => {
                if c.len() > 0 && atom_of(c[0]) == Some(key) {
                    if c.len() > 1 {
                        atom_of(c[1])
                    } else {
                        None
                    }
                } else {
                    property_from(l, key, i + 1)
                }
            },
            Tree::Atom(_) => property_from(l, key, i + 1),
        }
    } else {
        None
    }
}

pub open spec fn property_spec(e: Tree, key: Seq<char>) -> Option<Seq<char>> {
    property_from(items_of(e), key, 0)
}

/// The view of a list's children, child by child.
pub proof fn lemma_items_view(l: &Vec<SExpr>)
    ensures
        items_of(SExpr::List(*l)@).len() == l@.len(),
        forall|i: int| 0 <= i < l@.len() ==> #[trigger] items_of(SExpr::List(*l)@)[i] == l@[i]@,
{
}

/// Whether a token's text equals `t`.
pub fn atom_is(e: &SExpr, t: &Vec<char>) -> (r: bool)
    ensures
        r == (atom_of(e@) == Some(t@)),
{
    match e {
        SExpr::Atom(s) => {
            let v = chars_of(s.as_str());
            chars_eq(&v, t)
        },
        SExpr::List(_) => false,
    }
}

/// Whether `e` is a list whose tag is `t`.
pub fn tag_is(e: &SExpr, t: &Vec<char>) -> (r: bool)
    ensures
        r == has_tag(e@, t@),
{
    match e {
        SExpr::List(l) => {
            if l.len() > 0 {
                atom_is(&l[0], t)
            } else {
                false
            }
        },
        SExpr::Atom(_) => false,
    }
}

impl SExpr {
    /// The text of a token.
    pub fn as_atom(&self) -> (r: Option<&str>)
        ensures
            match r {
                Some(s) => atom_of(self@) == Some(s@),
                None => atom_of(self@) is None,
            },
    {
        match self {
            SExpr::Atom(s) => Some(s.as_str()),
            SExpr::List(_) => None,
        }
    }

    /// The children of a list.
    pub fn as_list(&self) -> (r: Option<&Vec<SExpr>>)
        ensures
            match r {
                Some(l) => *self == SExpr::List(*l),
                None => self@ is Atom,
            },
    {
        match self {
            SExpr::List(l) => Some(l),
            SExpr::Atom(_) => None,
        }
    }

    /// The first element of a list, when it is a token.
    pub fn tag(&self) -> (r: Option<&str>)
        ensures
            match r {
                Some(s) => tag_of(self@) == Some(s@),
                None => tag_of(self@) is None,
            },
    {
        match self {
            SExpr::List(l) => {
                if l.len() > 0 {
                    l[0].as_atom()
                } else {
                    None
                }
            },
            SExpr::Atom(_) => None,
        }
    }

    /// The first direct child list tagged `tag`.
    pub fn find(&self, tag: &str) -> (r: Option<&SExpr>)
        ensures
            match r {
                Some(c) => find_spec(self@, tag@) == Some(c@),
                None => find_spec(self@, tag@) is None,
            },
    {
        let t = chars_of(tag);
        match self {
            SExpr::List(l) => {
                proof {
                    lemma_items_view(l);
                }
                let ghost items = items_of(self@);
                let mut i: usize = 0;
                while i < l.len()
                    invariant
                        i <= l@.len(),
                        items == items_of(self@),
                        items.len() == l@.len(),
                        forall|j: int| 0 <= j < l@.len() ==> #[trigger] items[j] == l@[j]@,
                        first_tagged_from(items, tag@, 0) == first_tagged_from(items, tag@, i as int),
                        t@ == tag@,
                    decreases l.len() - i,
                {
                    if tag_is(&l[i], &t) {
                        return Some(&l[i]);
                    }
                    i = i + 1;
                }
                None
            },
            SExpr::Atom(_) => None,
        }
    }

    /// Every direct child list tagged `tag`, in order.
    pub fn find_all(&self, tag: &str) -> (r: Vec<&SExpr>)
        ensures
            r@.len() == find_all_spec(self@, tag@).len(),
            forall|k: int| 0 <= k < r@.len() ==> r@[k]@ == find_all_spec(self@, tag@)[k],
    {
        let t = chars_of(tag);
        let mut out: Vec<&SExpr> = Vec::new();
        match self {
            SExpr::List(l) => {
                proof {
                    lemma_items_view(l);
                }
                let ghost items = items_of(self@);
                let mut i: usize = 0;
                while i < l.len()
                    invariant
                        i <= l@.len(),
                        t@ == tag@,
                        items == items_of(self@),
                        items.len() == l@.len(),
                        forall|j: int| 0 <= j < l@.len() ==> #[trigger] items[j] == l@[j]@,
                        out@.len() == tagged_upto(items, tag@, i as int).len(),
                        forall|k: int|
                            0 <= k < out@.len() ==> out@[k]@ == tagged_upto(items, tag@, i as int)[k],
                    decreases l.len() - i,
                {
                    if tag_is(&l[i], &t) {
                        out.push(&l[i]);
                    }
                    i = i + 1;
                }
                out
            },
            SExpr::Atom(_) => out,
        }
    }

    /// The `index`-th element of a list.
    pub fn get(&self, index: usize) -> (r: Option<&SExpr>)
        ensures
            match r {
                Some(c) => get_spec(self@, index as int) == Some(c@),
                None => get_spec(self@, index as int) is None,
            },
    {
        match self {
            SExpr::List(l) => {
                if index < l.len() {
                    Some(&l[index])
                } else {
                    None
                }
            },
            SExpr::Atom(_) => None,
        }
    }

    /// The text of the `index`-th element, when it is a token.
    pub fn get_atom(&self, index: usize) -> (r: Option<&str>)
        ensures
            match r {
                Some(s) => get_atom_spec(self@, index as int) == Some(s@),
                None => get_atom_spec(self@, index as int) is None,
            },
    {
        match self.get(index) {
            Some(c) => c.as_atom(),
            None => None,
        }
    }

    /// The `index`-th element read as a number; absent when it is no token or
    /// no number.
    pub fn get_number(&self, index: usize) -> (r: Option<Decimal>)
        ensures
            r == get_number_spec(self@, index as int),
    {
        match self.get_atom(index) {
            Some(t) => parse_decimal(t),
            None => None,
        }
    }

    /// The value of the first child list of the form `(key value ...)`.
    pub fn property(&self, key: &str) -> (r: Option<&str>)
        ensures
            match r {
                Some(s) => property_spec(self@, key@) == Some(s@),
                None => property_spec(self@, key@) is None,
            },
    {
        let k = chars_of(key);
        match self {
            SExpr::List(l) => {
                proof {
                    lemma_items_view(l);
                }
                let ghost items = items_of(self@);
                let mut i: usize = 0;
                while i < l.len()
                    invariant
                        i <= l@.len(),
                        k@ == key@,
                        items == items_of(self@),
                        items.len() == l@.len(),
                        forall|j: int| 0 <= j < l@.len() ==> #[trigger] items[j] == l@[j]@,
                        property_from(items, key@, 0) == property_from(items, key@, i as int),
                    decreases l.len() - i,
                {
                    match &l[i] {
                        SExpr::List(c) => {
                            proof {
                                lemma_items_view(c);
                            }
                            if c.len() > 0 && atom_is(&c[0], &k) {
                                if c.len() > 1 {
                                    return c[1].as_atom();
                                }
                                return None;
                            }
                        },
                        SExpr::Atom(_) => {},
                    }
                    i = i + 1;
                }
                None
            },
            SExpr::Atom(_) => None,
        }
    }
}

} // verus!
