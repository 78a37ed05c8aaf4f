use vstd::prelude::*;

verus! {

pub open spec fn is_space(c: char) -> bool {
    c == ' ' || c == '\t' || c == '\n' || c == '\r'
}

pub open spec fn is_ident_start(c: char) -> bool {
    ('a' <= c && c <= 'z') || ('A' <= c && c <= 'Z') || c == '_'
}

pub open spec fn is_ident_continue(c: char) -> bool {
    is_ident_start(c) || ('0' <= c && c <= '9')
}

/// A token as a span of the source: an identifier, or a single other character.
pub struct Span {
    pub start: nat,
    pub end: nat,
    pub ident: bool,
}

/// How many identifier characters follow from position `i` on.
pub open spec fn ident_run(s: Seq<char>, i: int) -> nat
    decreases s.len() - i,
{
    if 0 <= i < s.len() && is_ident_continue(s[i]) {
        1 + ident_run(s, i + 1)
    } else {
        0
    }
}

/// A raw identifier `r#name` starts at position `i`.
pub open spec fn raw_at(s: Seq<char>, i: int) -> bool {
    0 <= i && i + 2 < s.len() && s[i] == 'r' && s[i + 1] == '#' && is_ident_start(s[i + 2])
}

/// Where the identifier that starts at position `i` ends.
pub open spec fn ident_end(s: Seq<char>, i: nat) -> nat {
    if raw_at(s, i as int) {
        i + 3 + ident_run(s, i + 3 as int)
    } else {
        i + 1 + ident_run(s, i + 1 as int)
    }
}

/// A plain identifier: a letter or `_`, then letters, digits or `_`.
pub open spec fn plain_ident(w: Seq<char>) -> bool {
    &&& w.len() > 0
    &&& is_ident_start(w[0])
    &&& forall|k: int| 1 <= k < w.len() ==> is_ident_continue(#[trigger] w[k])
}

/// The text of an identifier token: a plain identifier, or one marked raw by `r#`.
pub open spec fn lexer_ident(w: Seq<char>) -> bool {
    plain_ident(w) || (w.len() > 2 && w[0] == 'r' && w[1] == '#' && plain_ident(
        w.subrange(2, w.len() as int),
    ))
}

/// The tokens of `s` from position `i` on. Spaces separate tokens; an
/// identifier is a maximal run of identifier characters that starts with a
/// letter or `_`, possibly marked raw by a leading `r#`; every other character
/// is a token of its own.
pub open spec fn lex_from(s: Seq<char>, i: nat) -> Seq<Span>
    decreases s.len() - i,
{
    if i >= s.len() {
        Seq::empty()
    } else if is_space(s[i as int]) {
        lex_from(s, i + 1)
    } else if is_ident_start(s[i as int]) {
        let j = ident_end(s, i);
        if j <= s.len() {
            seq![Span { start: i, end: j, ident: true }] + lex_from(s, j)
        } else {
            // never taken: an identifier run ends within the source
            Seq::empty()
        }
    } else {
        seq![Span { start: i, end: i + 1, ident: false }] + lex_from(s, i + 1)
    }
}

pub open spec fn tokens_of(s: Seq<char>) -> Seq<Span> {
    lex_from(s, 0)
}


/// Tokens lie inside the source, in order, and do not overlap.
pub proof fn lemma_lex_ordered(s: Seq<char>, i: nat)
    ensures
        forall|a: int| 0 <= a < lex_from(s, i).len() ==> i <= #[trigger] lex_from(s, i)[a].start
            < lex_from(s, i)[a].end <= s.len(),
        forall|a: int, b: int|
            0 <= a < b < lex_from(s, i).len() ==> #[trigger] lex_from(s, i)[a].end
                <= #[trigger] lex_from(s, i)[b].start,
    decreases s.len() - i,
{
    if i >= s.len() {
    } else if is_space(s[i as int]) {
        lemma_lex_ordered(s, i + 1);
        assert(lex_from(s, i) == lex_from(s, i + 1));
    } else if is_ident_start(s[i as int]) {
        let j = ident_end(s, i);
        if j > s.len() {
            assert(lex_from(s, i) =~= Seq::<Span>::empty());
        } else {
            lemma_lex_ordered(s, j);
            let rest = lex_from(s, j);
            assert(lex_from(s, i) == seq![Span { start: i, end: j, ident: true }] + rest);
            assert forall|a: int, b: int|
                0 <= a < b < lex_from(s, i).len() implies #[trigger] lex_from(s, i)[a].end
                    <= #[trigger] lex_from(s, i)[b].start by {
                if a > 0 {
                    assert(rest[a - 1].end <= rest[b - 1].start);
                } else {
                    assert(j <= rest[b - 1].start);
                    assert(lex_from(s, i)[a].end == j);
                }
            }
        }
    } else {
        lemma_lex_ordered(s, i + 1);
        let rest = lex_from(s, i + 1);
        assert(lex_from(s, i) == seq![Span { start: i, end: i + 1, ident: false }] + rest);
        assert forall|a: int, b: int|
            0 <= a < b < lex_from(s, i).len() implies #[trigger] lex_from(s, i)[a].end
                <= #[trigger] lex_from(s, i)[b].start by {
            if a > 0 {
                assert(rest[a - 1].end <= rest[b - 1].start);
            } else {
                assert(i + 1 <= rest[b - 1].start);
                assert(lex_from(s, i)[a].end == i + 1);
            }
        }
    }
}

/// The characters an identifier run counts are identifier characters.
pub proof fn lemma_ident_run(s: Seq<char>, i: int)
    requires
        0 <= i,
    ensures
        i + ident_run(s, i) <= s.len() || ident_run(s, i) == 0,
        forall|k: int| i <= k < i + ident_run(s, i) ==> is_ident_continue(#[trigger] s[k]),
    decreases s.len() - i,
{
    if 0 <= i < s.len() && is_ident_continue(s[i]) {
        lemma_ident_run(s, i + 1 as int);
    }
}

/// Every identifier token has the shape of an identifier.
pub proof fn lemma_lex_idents(s: Seq<char>, i: nat)
    ensures
        forall|a: int|
            0 <= a < lex_from(s, i).len() && (#[trigger] lex_from(s, i)[a]).ident ==> lexer_ident(
                s.subrange(lex_from(s, i)[a].start as int, lex_from(s, i)[a].end as int),
            ),
    decreases s.len() - i,
{
    if i >= s.len() {
    } else if is_space(s[i as int]) {
        lemma_lex_idents(s, i + 1);
        assert(lex_from(s, i) == lex_from(s, i + 1));
    } else if is_ident_start(s[i as int]) {
        let j = ident_end(s, i);
        if j > s.len() {
            assert(lex_from(s, i) =~= Seq::<Span>::empty());
        } else {
            lemma_lex_idents(s, j);
            let rest = lex_from(s, j);
            assert(lex_from(s, i) == seq![Span { start: i, end: j, ident: true }] + rest);
            let w = s.subrange(i as int, j as int);
            if raw_at(s, i as int) {
                lemma_ident_run(s, i + 3 as int);
                assert(plain_ident(w.subrange(2, w.len() as int))) by {
                    assert forall|k: int| 1 <= k < w.len() - 2 implies is_ident_continue(
                        #[trigger] w.subrange(2, w.len() as int)[k],
                    ) by {
                        assert(w.subrange(2, w.len() as int)[k] == s[i + 2 + k]);
                    }
                }
            } else {
                lemma_ident_run(s, i + 1 as int);
                assert forall|k: int| 1 <= k < w.len() implies is_ident_continue(#[trigger] w[k]) by {
                    assert(w[k] == s[i + k]);
                }
            }
            assert forall|a: int|
                0 <= a < lex_from(s, i).len() && (#[trigger] lex_from(s, i)[a]).ident implies lexer_ident(
                s.subrange(lex_from(s, i)[a].start as int, lex_from(s, i)[a].end as int),
            ) by {
                if a > 0 {
                    assert(lex_from(s, i)[a] == rest[a - 1]);
                }
            }
        }
    } else {
        lemma_lex_idents(s, i + 1);
        let rest = lex_from(s, i + 1);
        assert(lex_from(s, i) == seq![Span { start: i, end: i + 1, ident: false }] + rest);
        assert forall|a: int|
            0 <= a < lex_from(s, i).len() && (#[trigger] lex_from(s, i)[a]).ident implies lexer_ident(
            s.subrange(lex_from(s, i)[a].start as int, lex_from(s, i)[a].end as int),
        ) by {
            if a > 0 {
                assert(lex_from(s, i)[a] == rest[a - 1]);
            }
        }
    }
}

#[derive(Clone, Copy, Debug)]
pub struct Token {
    pub start: usize,
    pub end: usize,
    pub ident: bool,
}

impl View for Token {
    type V = Span;

    open spec fn view(&self) -> Span {
        Span { start: self.start as nat, end: self.end as nat, ident: self.ident }
    }
}

pub open spec fn spans(t: Seq<Token>) -> Seq<Span> {
    t.map_values(|k: Token| k@)
}

fn space(c: char) -> (r: bool)
    ensures
        r == is_space(c),
{
    c == ' ' || c == '\t' || c == '\n' || c == '\r'
}

fn ident_start(c: char) -> (r: bool)
    ensures
        r == is_ident_start(c),
{
    ('a' <= c && c <= 'z') || ('A' <= c && c <= 'Z') || c == '_'
}

fn ident_continue(c: char) -> (r: bool)
    ensures
        r == is_ident_continue(c),
{
    ident_start(c) || ('0' <= c && c <= '9')
}

/// Splits the characters of a schema into tokens.
pub fn lex(s: &Vec<char>) -> (r: Vec<Token>)
    ensures
        spans(r@) == tokens_of(s@),
        forall|k: int| 0 <= k < r@.len() ==> #[trigger] r@[k].start < r@[k].end <= s@.len(),
        forall|a: int, b: int| 0 <= a < b < r@.len() ==> #[trigger] r@[a].end <= #[trigger] r@[b].start,
{
    let mut r: Vec<Token> = Vec::new();
    let mut i: usize = 0;
    while i < s.len()
        invariant
            i <= s@.len(),
            spans(r@) + lex_from(s@, i as nat) == tokens_of(s@),
        decreases s@.len() - i,
    {
        let c = s[i];
        let ghost before = spans(r@);
        if space(c) {
            i = i + 1;
        } else if ident_start(c) {
            let raw = c == 'r' && s.len() - i > 2 && s[i + 1] == '#' && ident_start(s[i + 2]);
            let mut j: usize = if raw {
                i + 3
            } else {
                i + 1
            };
            let ghost j0 = j;
            assert(raw == raw_at(s@, i as int));
            while j < s.len() && ident_continue(s[j])
                invariant
                    i < j0 <= j <= s@.len(),
                    j + ident_run(s@, j as int) == j0 + ident_run(s@, j0 as int),
                    ident_end(s@, i as nat) == j0 + ident_run(s@, j0 as int),
                decreases s@.len() - j,
            {
                j = j + 1;
            }
            let tok = Token { start: i, end: j, ident: true };
            r.push(tok);
            assert(spans(r@) =~= before.push(tok@));
            assert(before.push(tok@) + lex_from(s@, j as nat) =~= before + (seq![tok@]
                + lex_from(s@, j as nat)));
            i = j;
        } else {
            let tok = Token { start: i, end: i + 1, ident: false };
            r.push(tok);
            assert(spans(r@) =~= before.push(tok@));
            assert(before.push(tok@) + lex_from(s@, (i + 1) as nat) =~= before + (seq![tok@]
                + lex_from(s@, (i + 1) as nat)));
            i = i + 1;
        }
    }
    proof {
        lemma_lex_ordered(s@, 0);
        assert(lex_from(s@, i as nat) =~= Seq::<Span>::empty());
        assert(spans(r@) =~= tokens_of(s@));
        assert(spans(r@).len() == r@.len());
        assert forall|k: int| 0 <= k < r@.len() implies #[trigger] r@[k].start < r@[k].end
            <= s@.len() by {
            assert(spans(r@)[k] == r@[k]@);
            assert(spans(r@)[k] == tokens_of(s@)[k]);
            assert(lex_from(s@, 0)[k].start < lex_from(s@, 0)[k].end);
        }
        assert forall|a: int, b: int| 0 <= a < b < r@.len() implies #[trigger] r@[a].end
            <= #[trigger] r@[b].start by {
            assert(spans(r@)[a] == r@[a]@);
            assert(spans(r@)[b] == r@[b]@);
            assert(spans(r@)[a] == tokens_of(s@)[a]);
            assert(spans(r@)[b] == tokens_of(s@)[b]);
            assert(lex_from(s@, 0)[a].end <= lex_from(s@, 0)[b].start);
        }
    }
    r
}

} // verus!
