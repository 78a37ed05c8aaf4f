use crate::descriptor::{Descriptor, DescriptorView, Method, MethodView, Package, Service, ServiceView};
use crate::lex::{
    ident_end, is_ident_start, is_space, lemma_lex_idents, lex, lex_from, lexer_ident, spans,
    tokens_of, Span, Token,
};
use vstd::string::StrSliceExecFns;
use vstd::prelude::*;

verus! {

/// Whether `syn` reads an identifier token's text as one Rust identifier
/// (keywords are not, unless marked raw).
pub uninterp spec fn ident_ok(s: Seq<char>) -> bool;

/// Relies on `syn::parse_str::<syn::Ident>`. On the text of one ASCII
/// identifier token, which is all it is given, the compiler's lexer and
/// `proc-macro2`'s own agree, so the verdict depends on the text alone.
#[verifier::external_body]
fn accepts_ident(s: &str) -> (r: bool)
    requires
        lexer_ident(s@),
    ensures
        r == ident_ok(s@),
{
    syn::parse_str::<syn::Ident>(s).is_ok()
}

/// What the parser wanted where it stopped.
#[derive(Clone, Copy, Debug, PartialEq, Eq, Structural)]
pub enum Expected {
    Package,
    Service,
    Rpc,
    Returns,
    Ident,
    SemicolonOrDot,
    Semicolon,
    OpenBrace,
    CloseBrace,
    OpenParen,
    CloseParen,
    Type,
}

pub struct SchemaErrorView {
    pub at: nat,
    pub expected: Expected,
}

/// A malformed schema: the character offset of the offending token (the
/// length of the text where it ended too soon) and what was expected there.
#[derive(Clone, Copy, Debug, PartialEq, Eq, Structural)]
pub struct SchemaError {
    pub at: usize,
    pub expected: Expected,
}

impl View for SchemaError {
    type V = SchemaErrorView;

    open spec fn view(&self) -> SchemaErrorView {
        SchemaErrorView { at: self.at as nat, expected: self.expected }
    }
}

pub open spec fn text(s: Seq<char>, sp: Span) -> Seq<char> {
    s.subrange(sp.start as int, sp.end as int)
}

/// The name an identifier token stands for: its text without a raw marker `r#`.
pub open spec fn name_text(s: Seq<char>, sp: Span) -> Seq<char> {
    let w = text(s, sp);
    if w.len() > 2 && w[0] == 'r' && w[1] == '#' {
        w.subrange(2, w.len() as int)
    } else {
        w
    }
}

/// Where token `k` starts, or the end of the source past the last token.
pub open spec fn pos(s: Seq<char>, t: Seq<Span>, k: int) -> nat {
    if 0 <= k < t.len() {
        t[k].start
    } else {
        s.len()
    }
}

pub open spec fn fail(s: Seq<char>, t: Seq<Span>, k: int, e: Expected) -> SchemaErrorView {
    SchemaErrorView { at: pos(s, t, k), expected: e }
}

pub open spec fn is_word(s: Seq<char>, t: Seq<Span>, k: int, w: Seq<char>) -> bool {
    0 <= k < t.len() && t[k].ident && text(s, t[k]) == w
}

pub open spec fn is_punct(s: Seq<char>, t: Seq<Span>, k: int, c: char) -> bool {
    0 <= k < t.len() && !t[k].ident && s[t[k].start as int] == c
}

pub open spec fn is_name(s: Seq<char>, t: Seq<Span>, k: int) -> bool {
    0 <= k < t.len() && t[k].ident && ident_ok(text(s, t[k]))
}

/// `package a.b.c;` from token `k` on, after the first name: the dotted name and
/// the token after the `;`.
pub open spec fn package_rest(s: Seq<char>, t: Seq<Span>, k: int, name: Seq<char>) -> Result<
    (Seq<char>, int),
    SchemaErrorView,
>
    decreases t.len() - k,
{
    if is_punct(s, t, k, ';') {
        Ok((name, k + 1))
    } else if is_punct(s, t, k, '.') {
        if is_name(s, t, k + 1) {
            package_rest(s, t, k + 2, name + "."@ + name_text(s, t[k + 1]))
        } else {
            Err(fail(s, t, k + 1, Expected::Ident))
        }
    } else {
        Err(fail(s, t, k, Expected::SemicolonOrDot))
    }
}

pub open spec fn parse_package(s: Seq<char>, t: Seq<Span>) -> Result<(Seq<char>, int), SchemaErrorView> {
    if !is_word(s, t, 0, "package"@) {
        Err(fail(s, t, 0, Expected::Package))
    } else if !is_name(s, t, 1) {
        Err(fail(s, t, 1, Expected::Ident))
    } else {
        package_rest(s, t, 2, name_text(s, t[1]))
    }
}

pub open spec fn opens(c: char) -> bool {
    c == '(' || c == '[' || c == '{'
}

pub open spec fn closes(c: char) -> bool {
    c == ')' || c == ']' || c == '}'
}

/// The closer that matches an opening delimiter.
pub open spec fn closer_of(c: char) -> char {
    if c == '(' {
        ')'
    } else if c == '[' {
        ']'
    } else {
        '}'
    }
}

/// Scans tokens from `k` on, with `open` the closers still awaited, innermost
/// last. Stops at the first closer that the innermost open delimiter does not
/// await, or past the last token, and tells where it stopped and whether every
/// delimiter opened on the way was closed there.
pub open spec fn close_scan(s: Seq<char>, t: Seq<Span>, k: int, open: Seq<char>) -> (int, bool)
    decreases t.len() - k,
{
    if k < 0 || k >= t.len() {
        (t.len() as int, open.len() == 0)
    } else if t[k].ident {
        close_scan(s, t, k + 1, open)
    } else if opens(s[t[k].start as int]) {
        close_scan(s, t, k + 1, open.push(closer_of(s[t[k].start as int])))
    } else if closes(s[t[k].start as int]) {
        if open.len() > 0 && s[t[k].start as int] == open.last() {
            close_scan(s, t, k + 1, open.drop_last())
        } else {
            (k, open.len() == 0)
        }
    } else {
        close_scan(s, t, k + 1, open)
    }
}

/// `( [stream] Type )` at token `k`: the streaming flag, the type's text as
/// written, and the token after the `)`. The type is any nonempty run of
/// tokens whose delimiters balance; whether it names a Rust type is for the
/// compiler of the emitted bindings to say.
#[verifier::opaque]
pub open spec fn parse_type(s: Seq<char>, t: Seq<Span>, k: int) -> Result<(bool, Seq<char>, int), SchemaErrorView> {
    if !is_punct(s, t, k, '(') {
        Err(fail(s, t, k, Expected::OpenParen))
    } else {
        let streaming = is_word(s, t, k + 1, "stream"@);
        let b = if streaming {
            k + 2
        } else {
            k + 1
        };
        let (e, balanced) = close_scan(s, t, b, Seq::empty());
        if !(balanced && is_punct(s, t, e, ')')) {
            Err(fail(s, t, e, Expected::CloseParen))
        } else if e <= b {
            Err(fail(s, t, e, Expected::Type))
        } else {
            Ok((streaming, s.subrange(t[b].start as int, t[e - 1].end as int), e + 1))
        }
    }
}

/// `rpc Name (In) returns (Out);` at token `k`.
#[verifier::opaque]
pub open spec fn parse_method(s: Seq<char>, t: Seq<Span>, k: int) -> Result<(MethodView, int), SchemaErrorView> {
    if !is_word(s, t, k, "rpc"@) {
        Err(fail(s, t, k, Expected::Rpc))
    } else if !is_name(s, t, k + 1) {
        Err(fail(s, t, k + 1, Expected::Ident))
    } else {
        match parse_type(s, t, k + 2) {
            Err(e) => Err(e),
            Ok((cs, input, k2)) => if !is_word(s, t, k2, "returns"@) {
                Err(fail(s, t, k2, Expected::Returns))
            } else {
                match parse_type(s, t, k2 + 1) {
                    Err(e) => Err(e),
                    Ok((ss, output, k3)) => if !is_punct(s, t, k3, ';') {
                        Err(fail(s, t, k3, Expected::Semicolon))
                    } else {
                        Ok(
                            (
                                MethodView {
                                    name: name_text(s, t[k + 1]),
                                    input_type: input,
                                    output_type: output,
                                    client_streaming: cs,
                                    server_streaming: ss,
                                },
                                k3 + 1,
                            ),
                        )
                    },
                }
            },
        }
    }
}

/// Methods from token `k` up to the closing `}`, after those in `acc`.
pub open spec fn parse_methods(s: Seq<char>, t: Seq<Span>, k: int, acc: Seq<MethodView>) -> Result<
    (Seq<MethodView>, int),
    SchemaErrorView,
>
    decreases t.len() - k,
{
    if k < 0 || k >= t.len() {
        Err(fail(s, t, k, Expected::CloseBrace))
    } else if is_punct(s, t, k, '}') {
        Ok((acc, k + 1))
    } else {
        match parse_method(s, t, k) {
            Err(e) => Err(e),
            Ok((m, k2)) => if k < k2 <= t.len() {
                parse_methods(s, t, k2, acc.push(m))
            } else {
                // never taken: a method spans at least one token
                Err(fail(s, t, k, Expected::Rpc))
            },
        }
    }
}

/// `service Name { ... }` at token `k`.
#[verifier::opaque]
pub open spec fn parse_service(s: Seq<char>, t: Seq<Span>, k: int) -> Result<(ServiceView, int), SchemaErrorView> {
    if !is_word(s, t, k, "service"@) {
        Err(fail(s, t, k, Expected::Service))
    } else if !is_name(s, t, k + 1) {
        Err(fail(s, t, k + 1, Expected::Ident))
    } else if !is_punct(s, t, k + 2, '{') {
        Err(fail(s, t, k + 2, Expected::OpenBrace))
    } else {
        match parse_methods(s, t, k + 3, Seq::empty()) {
            Err(e) => Err(e),
            Ok((ms, k2)) => Ok((ServiceView { name: name_text(s, t[k + 1]), methods: ms }, k2)),
        }
    }
}

/// Services from token `k` to the end, after those in `acc`.
pub open spec fn parse_services(s: Seq<char>, t: Seq<Span>, k: int, acc: Seq<ServiceView>) -> Result<
    Seq<ServiceView>,
    SchemaErrorView,
>
    decreases t.len() - k,
{
    if k < 0 || k >= t.len() {
        Ok(acc)
    } else {
        match parse_service(s, t, k) {
            Err(e) => Err(e),
            Ok((sv, k2)) => if k < k2 <= t.len() {
                parse_services(s, t, k2, acc.push(sv))
            } else {
                // never taken: a service spans at least one token
                Err(fail(s, t, k, Expected::Service))
            },
        }
    }
}

/// The descriptor that a schema text denotes, or the first error in it.
pub open spec fn parse_schema(s: Seq<char>) -> Result<DescriptorView, SchemaErrorView> {
    let t = tokens_of(s);
    match parse_package(s, t) {
        Err(e) => Err(e),
        Ok((package, k)) => match parse_services(s, t, k, Seq::empty()) {
            Err(e) => Err(e),
            Ok(services) => Ok(DescriptorView { package, services }),
        },
    }
}

/// Never more tokens than characters.
pub proof fn lemma_lex_len(s: Seq<char>, i: nat)
    ensures
        lex_from(s, i).len() <= if i <= s.len() {
            s.len() - i
        } else {
            0
        },
    decreases s.len() - i,
{
    if i < s.len() {
        if is_space(s[i as int]) {
            lemma_lex_len(s, i + 1);
        } else if is_ident_start(s[i as int]) {
            let j = ident_end(s, i);
            if j <= s.len() {
                lemma_lex_len(s, j);
            }
        } else {
            lemma_lex_len(s, i + 1);
        }
    }
}

/// A schema text with its characters and tokens.
struct Cursor<'a> {
    src: &'a str,
    chars: Vec<char>,
    toks: Vec<Token>,
}

impl<'a> Cursor<'a> {
    spec fn s(&self) -> Seq<char> {
        self.src@
    }

    spec fn t(&self) -> Seq<Span> {
        spans(self.toks@)
    }

    spec fn wf(&self) -> bool {
        &&& self.chars@ == self.src@
        &&& self.t() == tokens_of(self.s())
        &&& self.toks@.len() <= self.chars@.len()
        &&& self.chars@.len() + 4 <= usize::MAX
        &&& forall|k: int|
            0 <= k < self.toks@.len() ==> #[trigger] self.toks@[k].start < self.toks@[k].end
                <= self.chars@.len()
        &&& forall|a: int, b: int|
            0 <= a < b < self.toks@.len() ==> #[trigger] self.toks@[a].end
                <= #[trigger] self.toks@[b].start
        &&& forall|k: int|
            0 <= k < self.toks@.len() && (#[trigger] self.toks@[k]).ident ==> lexer_ident(
                self.src@.subrange(self.toks@[k].start as int, self.toks@[k].end as int),
            )
    }

    fn new(src: &'a str) -> (r: Cursor<'a>)
        requires
            src@.len() + 4 <= usize::MAX,
        ensures
            r.wf(),
            r.src@ == src@,
    {
        let n = src.unicode_len();
        let mut chars: Vec<char> = Vec::new();
        let mut i: usize = 0;
        while i < n
            invariant
                n == src@.len(),
                i <= n,
                chars@ == src@.subrange(0, i as int),
            decreases n - i,
        {
            chars.push(src.get_char(i));
            i = i + 1;
            assert(chars@ =~= src@.subrange(0, i as int));
        }
        assert(chars@ =~= src@);
        let toks = lex(&chars);
        proof {
            lemma_lex_len(src@, 0);
            lemma_lex_idents(src@, 0);
            assert(spans(toks@).len() == toks@.len());
            assert forall|k: int| 0 <= k < toks@.len() && (#[trigger] toks@[k]).ident implies lexer_ident(
                src@.subrange(toks@[k].start as int, toks@[k].end as int),
            ) by {
                assert(spans(toks@)[k] == toks@[k]@);
                assert(lex_from(src@, 0)[k].ident);
            }
        }
        Cursor { src, chars, toks }
    }

    proof fn span_of(&self, k: int)
        requires
            0 <= k < self.toks@.len(),
        ensures
            self.t()[k] == self.toks@[k]@,
            self.t().len() == self.toks@.len(),
    {
    }

    fn pos(&self, k: usize) -> (r: usize)
        requires
            self.wf(),
        ensures
            r == pos(self.s(), self.t(), k as int),
    {
        if k < self.toks.len() {
            proof {
                self.span_of(k as int);
            }
            self.toks[k].start
        } else {
            proof {
                assert(self.t().len() == self.toks@.len());
            }
            self.chars.len()
        }
    }

    fn fail(&self, k: usize, e: Expected) -> (r: SchemaError)
        requires
            self.wf(),
        ensures
            r@ == fail(self.s(), self.t(), k as int, e),
    {
        SchemaError { at: self.pos(k), expected: e }
    }

    fn word_at(&self, k: usize, w: &str) -> (r: bool)
        requires
            self.wf(),
        ensures
            r == is_word(self.s(), self.t(), k as int, w@),
    {
        if k >= self.toks.len() {
            return false;
        }
        proof {
            self.span_of(k as int);
        }
        let tok = self.toks[k];
        if !tok.ident {
            return false;
        }
        let n = w.unicode_len();
        if tok.end - tok.start != n {
            return false;
        }
        let mut i: usize = 0;
        while i < n
            invariant
                self.wf(),
                k < self.toks@.len(),
                tok == self.toks@[k as int],
                n == w@.len(),
                tok.end - tok.start == n,
                i <= n,
                forall|j: int| 0 <= j < i ==> self.chars@[tok.start + j] == w@[j],
            decreases n - i,
        {
            if self.chars[tok.start + i] != w.get_char(i) {
                assert(text(self.s(), self.t()[k as int])[i as int] != w@[i as int]);
                return false;
            }
            i = i + 1;
        }
        assert(text(self.s(), self.t()[k as int]) =~= w@);
        true
    }

    fn punct_at(&self, k: usize, c: char) -> (r: bool)
        requires
            self.wf(),
        ensures
            r == is_punct(self.s(), self.t(), k as int, c),
    {
        if k >= self.toks.len() {
            return false;
        }
        proof {
            self.span_of(k as int);
        }
        let tok = self.toks[k];
        !tok.ident && self.chars[tok.start] == c
    }

    fn token_text(&self, k: usize) -> (r: &'a str)
        requires
            self.wf(),
            k < self.toks@.len(),
        ensures
            r@ == text(self.s(), self.t()[k as int]),
    {
        proof {
            self.span_of(k as int);
        }
        let tok = self.toks[k];
        self.src.substring_char(tok.start, tok.end)
    }

    fn name_at(&self, k: usize) -> (r: bool)
        requires
            self.wf(),
        ensures
            r == is_name(self.s(), self.t(), k as int),
    {
        if k >= self.toks.len() {
            return false;
        }
        proof {
            self.span_of(k as int);
        }
        if !self.toks[k].ident {
            return false;
        }
        accepts_ident(self.token_text(k))
    }

    fn name_text(&self, k: usize) -> (r: &'a str)
        requires
            self.wf(),
            k < self.toks@.len(),
        ensures
            r@ == name_text(self.s(), self.t()[k as int]),
    {
        proof {
            self.span_of(k as int);
        }
        let tok = self.toks[k];
        if tok.end - tok.start > 2 && self.chars[tok.start] == 'r' && self.chars[tok.start + 1] == '#' {
            let r = self.src.substring_char(tok.start + 2, tok.end);
            assert(r@ =~= text(self.s(), self.t()[k as int]).subrange(2, (tok.end - tok.start) as int));
            r
        } else {
            self.src.substring_char(tok.start, tok.end)
        }
    }

    fn parse_package(&self) -> (r: Result<(String, usize), SchemaError>)
        requires
            self.wf(),
        ensures
            match parse_package(self.s(), self.t()) {
                Ok((p, e)) => r matches Ok((rp, re)) && rp@ == p && re == e && re
                    <= self.toks@.len(),
                Err(x) => r matches Err(y) && y@ == x,
            },
    {
        proof {
            assert(self.t().len() == self.toks@.len());
        }
        if !self.word_at(0, "package") {
            return Err(self.fail(0, Expected::Package));
        }
        if !self.name_at(1) {
            return Err(self.fail(1, Expected::Ident));
        }
        let mut name = String::from_str(self.name_text(1));
        let mut k: usize = 2;
        loop
            invariant_except_break
                parse_package(self.s(), self.t()) == package_rest(
                    self.s(),
                    self.t(),
                    k as int,
                    name@,
                ),
            invariant
                self.wf(),
                2 <= k <= self.toks@.len() + 1,
            ensures
                parse_package(self.s(), self.t()) == Ok::<_, SchemaErrorView>((name@, k as int)),
                k <= self.toks@.len(),
            decreases self.toks@.len() + 1 - k,
        {
            if self.punct_at(k, ';') {
                k = k + 1;
                break;
            } else if self.punct_at(k, '.') {
                if !self.name_at(k + 1) {
                    return Err(self.fail(k + 1, Expected::Ident));
                }
                name.append(".");
                name.append(self.name_text(k + 1));
                k = k + 2;
            } else {
                return Err(self.fail(k, Expected::SemicolonOrDot));
            }
        }
        Ok((name, k))
    }

    fn close_scan(&self, b: usize) -> (r: (usize, bool))
        requires
            self.wf(),
            b <= self.toks@.len() + 1,
        ensures
            (r.0 as int, r.1) == close_scan(self.s(), self.t(), b as int, Seq::empty()),
            r.0 <= self.toks@.len(),
            b <= r.0 || b > self.toks@.len(),
    {
        proof {
            assert(self.t().len() == self.toks@.len());
        }
        if b >= self.toks.len() {
            return (self.toks.len(), true);
        }
        let mut open: Vec<char> = Vec::new();
        let mut k: usize = b;
        while k < self.toks.len()
            invariant
                self.wf(),
                b <= k <= self.toks@.len(),
                close_scan(self.s(), self.t(), b as int, Seq::empty()) == close_scan(
                    self.s(),
                    self.t(),
                    k as int,
                    open@,
                ),
            decreases self.toks@.len() - k,
        {
            proof {
                self.span_of(k as int);
            }
            let tok = self.toks[k];
            if !tok.ident {
                let c = self.chars[tok.start];
                if c == '(' {
                    open.push(')');
                } else if c == '[' {
                    open.push(']');
                } else if c == '{' {
                    open.push('}');
                } else if c == ')' || c == ']' || c == '}' {
                    if open.len() > 0 && c == open[open.len() - 1] {
                        open.pop();
                    } else {
                        return (k, open.len() == 0);
                    }
                }
            }
            k = k + 1;
        }
        (k, open.len() == 0)
    }

    fn parse_type(&self, k: usize) -> (r: Result<(bool, String, usize), SchemaError>)
        requires
            self.wf(),
            k <= self.toks@.len(),
        ensures
            match parse_type(self.s(), self.t(), k as int) {
                Ok((st, ty, e)) => r matches Ok((rs, rty, re)) && rs == st && rty@ == ty && re == e
                    && k < re <= self.toks@.len(),
                Err(x) => r matches Err(y) && y@ == x,
            },
    {
        reveal(parse_type);
        if !self.punct_at(k, '(') {
            return Err(self.fail(k, Expected::OpenParen));
        }
        let streaming = self.word_at(k + 1, "stream");
        let b = if streaming {
            k + 2
        } else {
            k + 1
        };
        let (e, balanced) = self.close_scan(b);
        if !(balanced && self.punct_at(e, ')')) {
            return Err(self.fail(e, Expected::CloseParen));
        }
        if e <= b {
            return Err(self.fail(e, Expected::Type));
        }
        proof {
            self.span_of(b as int);
            self.span_of(e - 1);
            if b < e - 1 {
                assert(self.toks@[b as int].end <= self.toks@[e - 1].start);
            }
        }
        let start = self.toks[b].start;
        let end = self.toks[e - 1].end;
        let ty = self.src.substring_char(start, end);
        Ok((streaming, String::from_str(ty), e + 1))
    }

    fn parse_method(&self, k: usize) -> (r: Result<(Method, usize), SchemaError>)
        requires
            self.wf(),
            k <= self.toks@.len(),
        ensures
            match parse_method(self.s(), self.t(), k as int) {
                Ok((mv, e)) => r matches Ok((m, re)) && m@ == mv && re == e && k < re
                    <= self.toks@.len(),
                Err(x) => r matches Err(y) && y@ == x,
            },
    {
        reveal(parse_method);
        if !self.word_at(k, "rpc") {
            return Err(self.fail(k, Expected::Rpc));
        }
        if !self.name_at(k + 1) {
            return Err(self.fail(k + 1, Expected::Ident));
        }
        let name = self.name_text(k + 1);
        let (client_streaming, input_type, k2) = match self.parse_type(k + 2) {
            Ok(v) => v,
            Err(e) => return Err(e),
        };
        if !self.word_at(k2, "returns") {
            return Err(self.fail(k2, Expected::Returns));
        }
        let (server_streaming, output_type, k3) = match self.parse_type(k2 + 1) {
            Ok(v) => v,
            Err(e) => return Err(e),
        };
        if !self.punct_at(k3, ';') {
            return Err(self.fail(k3, Expected::Semicolon));
        }
        let m = Method {
            name: String::from_str(name),
            input_type,
            output_type,
            client_streaming,
            server_streaming,
        };
        Ok((m, k3 + 1))
    }

    fn parse_service(&self, k: usize) -> (r: Result<(Service, usize), SchemaError>)
        requires
            self.wf(),
            k <= self.toks@.len(),
        ensures
            match parse_service(self.s(), self.t(), k as int) {
                Ok((sv, e)) => r matches Ok((sr, re)) && sr@ == sv && re == e && k < re
                    <= self.toks@.len(),
                Err(x) => r matches Err(y) && y@ == x,
            },
    {
        reveal(parse_service);
        if !self.word_at(k, "service") {
            return Err(self.fail(k, Expected::Service));
        }
        if !self.name_at(k + 1) {
            return Err(self.fail(k + 1, Expected::Ident));
        }
        let name = self.name_text(k + 1);
        if !self.punct_at(k + 2, '{') {
            return Err(self.fail(k + 2, Expected::OpenBrace));
        }
        let mut method: Vec<Method> = Vec::new();
        let mut j: usize = k + 3;
        assert(method@.map_values(|m: Method| m@) =~= Seq::<MethodView>::empty());
        while j < self.toks.len() && !self.punct_at(j, '}')
            invariant
                self.wf(),
                k + 3 <= j <= self.toks@.len(),
                is_word(self.s(), self.t(), k as int, "service"@),
                is_name(self.s(), self.t(), k + 1),
                is_punct(self.s(), self.t(), k + 2, '{'),
                name@ == name_text(self.s(), self.t()[k + 1]),
                parse_methods(self.s(), self.t(), k + 3, Seq::empty()) == parse_methods(
                    self.s(),
                    self.t(),
                    j as int,
                    method@.map_values(|m: Method| m@),
                ),
            decreases self.toks@.len() - j,
        {
            proof {
                assert(self.t().len() == self.toks@.len());
            }
            let (m, next) = match self.parse_method(j) {
                Ok(v) => v,
                Err(e) => {
                    assert(parse_methods(
                        self.s(),
                        self.t(),
                        j as int,
                        method@.map_values(|m: Method| m@),
                    ) == Err::<(Seq<MethodView>, int), _>(e@));
                    reveal(parse_service);
                    return Err(e);
                },
            };
            proof {
                assert(method@.push(m).map_values(|m: Method| m@) =~= method@.map_values(
                    |m: Method| m@,
                ).push(m@));
            }
            method.push(m);
            j = next;
        }
        proof {
            assert(self.t().len() == self.toks@.len());
        }
        if j >= self.toks.len() {
            return Err(self.fail(j, Expected::CloseBrace));
        }
        Ok((Service { name: String::from_str(name), method }, j + 1))
    }
}

impl Descriptor {
    /// Parses a schema: one `package` declaration, then any number of services.
    pub fn parse(src: &str) -> (r: Result<Descriptor, SchemaError>)
        requires
            src@.len() + 4 <= usize::MAX,
        ensures
            match parse_schema(src@) {
                Ok(d) => r matches Ok(rd) && rd@ == d,
                Err(e) => r matches Err(re) && re@ == e,
            },
    {
        let c = Cursor::new(src);
        let (name, mut k) = match c.parse_package() {
            Ok(v) => v,
            Err(e) => return Err(e),
        };
        let mut service: Vec<Service> = Vec::new();
        assert(service@.map_values(|s: Service| s@) =~= Seq::<ServiceView>::empty());
        while k < c.toks.len()
            invariant
                c.wf(),
                c.src@ == src@,
                k <= c.toks@.len(),
                parse_package(c.s(), c.t()) matches Ok((p, k0)) && p == name@
                    && parse_services(c.s(), c.t(), k0, Seq::empty()) == parse_services(
                    c.s(),
                    c.t(),
                    k as int,
                    service@.map_values(|s: Service| s@),
                ),
            decreases c.toks@.len() - k,
        {
            let (s, next) = match c.parse_service(k) {
                Ok(v) => v,
                Err(e) => return Err(e),
            };
            proof {
                assert(service@.push(s).map_values(|s: Service| s@) =~= service@.map_values(
                    |s: Service| s@,
                ).push(s@));
            }
            service.push(s);
            k = next;
        }
        Ok(Descriptor { package: Package { name }, service })
    }
}

} // verus!
