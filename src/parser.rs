//! Parser of parenthesized expressions: one left-to-right scan with one
//! character of lookahead.
use vstd::prelude::*;
use crate::sexpr::{SExpr, Tree, KicadError};
use crate::text::{is_ws, is_whitespace_char, chars_of, push_char};

verus! {

/// Position of the first character at or after `i` that is not white space.
pub open spec fn skip_ws(s: Seq<char>, i: int) -> int
    decreases s.len() - i,
{
    if 0 <= i < s.len() && is_ws(s[i]) {
        skip_ws(s, i + 1)
    } else {
        i
    }
}

/// Characters that end a bare token.
pub open spec fn is_delim(c: char) -> bool {
    is_ws(c) || c == '(' || c == ')'
}

/// End of the bare token that starts at `i`.
pub open spec fn bare_end(s: Seq<char>, i: int) -> int
    decreases s.len() - i,
{
    if 0 <= i < s.len() && !is_delim(s[i]) {
        bare_end(s, i + 1)
    } else {
        i
    }
}

/// What a backslash followed by `c` stands for inside a quoted string.
pub open spec fn unescape(c: char) -> char {
    if c == 'n' {
        '\n'
    } else if c == 't' {
        '\t'
    } else if c == 'r' {
        '\r'
    } else {
        c
    }
}

/// Scan of a quoted string from `i` (just after the opening quote), with
/// `acc` read so far: the text and the position after the closing quote, or
/// the end of the input when the string is not closed.
pub open spec fn str_scan(s: Seq<char>, i: int, acc: Seq<char>) -> (Seq<char>, int)
    decreases s.len() - i,
{
    if 0 <= i < s.len() {
        if s[i] == '"' {
            (acc, i + 1)
        } else if s[i] == '\\' {
            if i + 1 < s.len() {
                str_scan(s, i + 2, acc.push(unescape(s[i + 1])))
            } else {
                (acc, i + 1)
            }
        } else {
            str_scan(s, i + 1, acc.push(s[i]))
        }
    } else {
        (acc, i)
    }
}

pub proof fn lemma_skip_ws(s: Seq<char>, i: int)
    ensures
        skip_ws(s, i) >= i,
        0 <= i <= s.len() ==> skip_ws(s, i) <= s.len(),
    decreases s.len() - i,
{
    if 0 <= i < s.len() && is_ws(s[i]) {
        lemma_skip_ws(s, i + 1);
    }
}

/// One expression from `i`: the tree and the position after it.
pub open spec fn parse_expr_at(s: Seq<char>, i: int) -> Option<(Tree, int)>
    decreases s.len() - i, 1int,
{
    let j = skip_ws(s, i);
    proof {
        lemma_skip_ws(s, i);
    }
    if 0 <= j < s.len() && s[j] == '(' {
        match parse_items(s, j + 1, seq![]) {
            Some((items, k)) => Some((Tree::List(items), k)),
            None => None,
        }
    } else if 0 <= j < s.len() && s[j] == '"' {
        let (t, k) = str_scan(s, j + 1, seq![]);
        Some((Tree::Atom(t), k))
    } else {
        let k = bare_end(s, j);
        if k > j {
            Some((Tree::Atom(s.subrange(j, k)), k))
        } else {
            None
        }
    }
}

/// The elements of a list from `i` up to its closing parenthesis, after the
/// elements `acc` read so far: the elements and the position after the list.
pub open spec fn parse_items(s: Seq<char>, i: int, acc: Seq<Tree>) -> Option<(Seq<Tree>, int)>
    decreases s.len() - i, 2int,
{
    let j = skip_ws(s, i);
    proof {
        lemma_skip_ws(s, i);
    }
    if j < 0 || j >= s.len() {
        None
    } else if s[j] == ')' {
        Some((acc, j + 1))
    } else {
        match parse_expr_at(s, j) {
            Some((e, k)) => if j < k <= s.len() {
                parse_items(s, k, acc.push(e))
            } else {
                None
            },
            None => None,
        }
    }
}

/// The tree of the expression that starts at `i` and that only white space
/// follows.
pub open spec fn parse_whole_at(s: Seq<char>, i: int) -> Option<Tree> {
    match parse_expr_at(s, i) {
        Some((t, k)) => if skip_ws(s, k) >= s.len() {
            Some(t)
        } else {
            None
        },
        None => None,
    }
}

/// The tree that a whole text parses to: one expression, with nothing but
/// white space around it.
pub open spec fn parse_text(s: Seq<char>) -> Option<Tree> {
    parse_whole_at(s, 0)
}

proof fn lemma_list_view(l: Vec<SExpr>, t: Seq<Tree>)
    requires
        l@.len() == t.len(),
        forall|k: int| 0 <= k < t.len() ==> l@[k]@ == t[k],
    ensures
        SExpr::List(l)@ == Tree::List(t),
{
    let v = SExpr::List(l)@;
    assert(v matches Tree::List(u) && u =~= t);
}

/// Parser state: the input's characters and the position of the next one.
#[derive(Debug)]
pub struct SExprParser {
    chars: Vec<char>,
    pos: usize,
}

impl SExprParser {
    /// The characters being parsed.
    pub closed spec fn input(&self) -> Seq<char> {
        self.chars@
    }

    /// The position of the next character to read.
    pub closed spec fn position(&self) -> int {
        self.pos as int
    }

    pub closed spec fn wf(&self) -> bool {
        self.pos <= self.chars@.len()
    }

    /// A parser at the start of `input`.
    pub fn new(input: &str) -> (r: SExprParser)
        ensures
            r.input() == input@,
            r.position() == 0,
            r.wf(),
    {
        SExprParser { chars: chars_of(input), pos: 0 }
    }

    /// Parses the rest of the input as one expression; anything but white
    /// space after it is an error.
    pub fn parse(&mut self) -> (r: Result<SExpr, KicadError>)
        requires
            old(self).wf(),
        ensures
            final(self).wf(),
            final(self).input() == old(self).input(),
            match parse_whole_at(old(self).input(), old(self).position()) {
                Some(t) => r is Ok && r->Ok_0@ == t && final(self).position() == old(
                    self,
                ).input().len(),
                None => r is Err,
            },
            r is Err ==> r->Err_0.line is None,
    {
        let ghost s = self.chars@;
        let ghost i = self.pos as int;
        self.skip_whitespace();
        proof {
            lemma_skip_ws_idem(s, i);
            assert(parse_expr_at(s, i) == parse_expr_at(s, self.pos as int));
        }
        let e = match self.parse_expr() {
            Ok(e) => e,
            Err(err) => {
                return Err(err);
            },
        };
        let ghost k = self.pos as int;
        self.skip_whitespace();
        proof {
            lemma_skip_ws(s, k);
        }
        if self.pos < self.chars.len() {
            return Err(KicadError::new("Unexpected text after the expression"));
        }
        Ok(e)
    }

    fn parse_expr(&mut self) -> (r: Result<SExpr, KicadError>)
        requires
            old(self).wf(),
        ensures
            r is Err ==> r->Err_0.line is None,
            final(self).wf(),
            final(self).chars@ == old(self).chars@,
            match parse_expr_at(old(self).chars@, old(self).pos as int) {
                Some((t, k)) => r is Ok && r->Ok_0@ == t && final(self).pos == k && k
                    > old(self).pos,
                None => r is Err,
            },
        decreases old(self).chars@.len() - old(self).pos, 1int,
    {
        let ghost s = self.chars@;
        let ghost i = self.pos as int;
        self.skip_whitespace();
        proof {
            lemma_skip_ws(s, i);
            lemma_skip_ws_idem(s, i);
            assert(parse_expr_at(s, i) == parse_expr_at(s, self.pos as int));
            lemma_items_advance(s, self.pos + 1, seq![]);
        }
        if self.peek() == Some('(') {
            self.parse_list()
        } else {
            self.parse_atom()
        }
    }

    #[verifier::loop_isolation(false)]
    fn parse_list(&mut self) -> (r: Result<SExpr, KicadError>)
        requires
            old(self).wf(),
            old(self).pos < old(self).chars@.len(),
            old(self).chars@[old(self).pos as int] == '(',
        ensures
            r is Err ==> r->Err_0.line is None,
            final(self).wf(),
            final(self).chars@ == old(self).chars@,
            match parse_items(old(self).chars@, old(self).pos + 1, seq![]) {
                Some((t, k)) => r is Ok && r->Ok_0@ == Tree::List(t) && final(self).pos == k,
                None => r is Err,
            },
        decreases old(self).chars@.len() - old(self).pos, 0int,
    {
        let ghost s = self.chars@;
        let ghost start = self.pos + 1;
        let _ = self.expect('(');
        let mut items: Vec<SExpr> = Vec::new();
        let ghost mut acc: Seq<Tree> = seq![];
        loop
            invariant
                self.wf(),
                self.chars@ == s,
                start <= self.pos,
                items@.len() == acc.len(),
                forall|k: int| 0 <= k < acc.len() ==> items@[k]@ == acc[k],
                parse_items(s, start, seq![]) == parse_items(s, self.pos as int, acc),
            decreases s.len() - self.pos,
        {
            let ghost i = self.pos as int;
            self.skip_whitespace();
            proof {
                lemma_skip_ws(s, i);
            }
            if self.peek() == Some(')') {
                self.advance();
                proof {
                    lemma_list_view(items, acc);
                }
                return Ok(SExpr::List(items));
            }
            if self.peek().is_none() {
                return Err(KicadError::new("Unexpected end of input in list"));
            }
            let ghost j = self.pos as int;
            match self.parse_expr() {
                Ok(e) => {
                    proof {
                        acc = acc.push(e@);
                    }
                    items.push(e);
                },
                Err(err) => {
                    return Err(err);
                },
            }
        }
    }

    fn parse_atom(&mut self) -> (r: Result<SExpr, KicadError>)
        requires
            old(self).wf(),
            skip_ws(old(self).chars@, old(self).pos as int) == old(self).pos,
            !(old(self).pos < old(self).chars@.len() && old(self).chars@[old(self).pos as int]
                == '('),
        ensures
            r is Err ==> r->Err_0.line is None,
            final(self).wf(),
            final(self).chars@ == old(self).chars@,
            match parse_expr_at(old(self).chars@, old(self).pos as int) {
                Some((t, k)) => r is Ok && r->Ok_0@ == t && final(self).pos == k && k
                    > old(self).pos,
                None => r is Err,
            },
    {
        self.skip_whitespace();
        if self.peek() == Some('"') {
            self.parse_string()
        } else {
            self.parse_symbol()
        }
    }

    #[verifier::loop_isolation(false)]
    fn parse_string(&mut self) -> (r: Result<SExpr, KicadError>)
        requires
            old(self).wf(),
            old(self).pos < old(self).chars@.len(),
            old(self).chars@[old(self).pos as int] == '"',
        ensures
            final(self).wf(),
            final(self).chars@ == old(self).chars@,
            r is Ok,
            r->Ok_0@ == Tree::Atom(str_scan(old(self).chars@, old(self).pos + 1, seq![]).0),
            final(self).pos == str_scan(old(self).chars@, old(self).pos + 1, seq![]).1,
            final(self).pos > old(self).pos,
    {
        let ghost s = self.chars@;
        let ghost start = self.pos + 1;
        let _ = self.expect('"');
        let mut out = String::new();
        loop
            invariant
                self.wf(),
                self.chars@ == s,
                start <= self.pos,
                str_scan(s, start, seq![]) == str_scan(s, self.pos as int, out@),
            decreases s.len() - self.pos,
        {
            match self.peek() {
                None => {
                    break ;
                },
                Some(c) => {
                    if c == '"' {
                        self.advance();
                        break ;
                    }
                    if c == '\\' {
                        self.advance();
                        match self.peek() {
                            Some(escaped) => {
                                let u = if escaped == 'n' {
                                    '\n'
                                } else if escaped == 't' {
                                    '\t'
                                } else if escaped == 'r' {
                                    '\r'
                                } else {
                                    escaped
                                };
                                push_char(&mut out, u);
                                self.advance();
                            },
                            None => {
                                break ;
                            },
                        }
                    } else {
                        push_char(&mut out, c);
                        self.advance();
                    }
                },
            }
        }
        Ok(SExpr::Atom(out))
    }

    #[verifier::loop_isolation(false)]
    fn parse_symbol(&mut self) -> (r: Result<SExpr, KicadError>)
        requires
            old(self).wf(),
        ensures
            r is Err ==> r->Err_0.line is None,
            final(self).wf(),
            final(self).chars@ == old(self).chars@,
            final(self).pos == bare_end(old(self).chars@, old(self).pos as int),
            bare_end(old(self).chars@, old(self).pos as int) > old(self).pos ==> r is Ok && r->Ok_0@
                == Tree::Atom(
                old(self).chars@.subrange(old(self).pos as int, final(self).pos as int),
            ),
            bare_end(old(self).chars@, old(self).pos as int) <= old(self).pos ==> r is Err,
    {
        let ghost s = self.chars@;
        let ghost start = self.pos as int;
        let first = self.pos;
        let mut out = String::new();
        loop
            invariant
                self.wf(),
                self.chars@ == s,
                start <= self.pos,
                bare_end(s, start) == bare_end(s, self.pos as int),
                out@ == s.subrange(start, self.pos as int),
            decreases s.len() - self.pos,
        {
            match self.peek() {
                None => {
                    break ;
                },
                Some(c) => {
                    if is_whitespace_char(c) || c == '(' || c == ')' {
                        break ;
                    }
                    push_char(&mut out, c);
                    self.advance();
                    assert(out@ =~= s.subrange(start, self.pos as int));
                },
            }
        }
        if self.pos == first {
            return Err(KicadError::new("Empty symbol"));
        }
        Ok(SExpr::Atom(out))
    }

    #[verifier::loop_isolation(false)]
    fn skip_whitespace(&mut self)
        requires
            old(self).wf(),
        ensures
            final(self).wf(),
            final(self).chars@ == old(self).chars@,
            final(self).pos == skip_ws(old(self).chars@, old(self).pos as int),
    {
        let ghost s = self.chars@;
        let ghost start = self.pos as int;
        loop
            invariant
                self.wf(),
                self.chars@ == s,
                skip_ws(s, start) == skip_ws(s, self.pos as int),
            decreases s.len() - self.pos,
        {
            match self.peek() {
                Some(c) => {
                    if is_whitespace_char(c) {
                        self.advance();
                    } else {
                        break ;
                    }
                },
                None => {
                    break ;
                },
            }
        }
    }

    fn peek(&self) -> (r: Option<char>)
        requires
            self.wf(),
        ensures
            r == (if self.pos < self.chars@.len() {
                Some(self.chars@[self.pos as int])
            } else {
                None
            }),
    {
        if self.pos < self.chars.len() {
            Some(self.chars[self.pos])
        } else {
            None
        }
    }

    fn advance(&mut self)
        requires
            old(self).wf(),
        ensures
            final(self).wf(),
            final(self).chars@ == old(self).chars@,
            final(self).pos == (if old(self).pos < old(self).chars@.len() {
                old(self).pos + 1
            } else {
                old(self).pos as int
            }),
    {
        if self.pos < self.chars.len() {
            self.pos = self.pos + 1;
        }
    }

    fn expect(&mut self, expected: char) -> (r: Result<(), KicadError>)
        requires
            old(self).wf(),
        ensures
            r is Err ==> r->Err_0.line is None,
            final(self).wf(),
            final(self).chars@ == old(self).chars@,
            (old(self).pos < old(self).chars@.len() && old(self).chars@[old(self).pos as int]
                == expected) ==> r is Ok && final(self).pos == old(self).pos + 1,
            !(old(self).pos < old(self).chars@.len() && old(self).chars@[old(self).pos as int]
                == expected) ==> r is Err && final(self).pos == old(self).pos,
    {
        if self.peek() == Some(expected) {
            self.advance();
            Ok(())
        } else {
            Err(KicadError::new("Unexpected character"))
        }
    }
}

/// A list ends after the position where its elements start.
pub proof fn lemma_items_advance(s: Seq<char>, i: int, acc: Seq<Tree>)
    ensures
        parse_items(s, i, acc) matches Some((_, k)) ==> k > i,
    decreases s.len() - i,
{
    lemma_skip_ws(s, i);
    let j = skip_ws(s, i);
    if 0 <= j < s.len() && s[j] != ')' {
        if let Some((e, k)) = parse_expr_at(s, j) {
            if j < k <= s.len() {
                lemma_items_advance(s, k, acc.push(e));
            }
        }
    }
}

pub proof fn lemma_skip_ws_idem(s: Seq<char>, i: int)
    ensures
        skip_ws(s, skip_ws(s, i)) == skip_ws(s, i),
    decreases s.len() - i,
{
    if 0 <= i < s.len() && is_ws(s[i]) {
        lemma_skip_ws_idem(s, i + 1);
    }
}

/// Parses a whole text as one expression.
pub fn parse_document(text: &str) -> (r: Result<SExpr, KicadError>)
    ensures
        match parse_text(text@) {
            Some(t) => r is Ok && r->Ok_0@ == t,
            None => r is Err,
        },
        r is Err ==> r->Err_0.line is None,
{
    let mut p = SExprParser::new(text);
    p.parse()
}

} // verus!
