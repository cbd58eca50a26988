use vstd::prelude::*;
use crate::ast::{
    ASTBuilder, AnonymousClass, AnonymousClassOrIdent, Class, Component, ComponentBody, ConstValue,
    Constant, DataType, DataTypeDef, Expr, Ident, Import, ImportSymbols, Include, IncludeCond,
    Item, Node, NodeKind, NumLit, ObjectValue, OpCode, Package, PathExpr, QueryKind,
    RawPropertyOrInclude,
    Sign, Span, StyleValue, StyleValueCond, Unit, ViewItem, is_valid_img_range,
};
use crate::tok::{
    Error, ErrorCode, Spanned, StrView, Tok, TokState, Tokenizer, spec_tokenize,
    spec_tokenize_from, token_view_wf,
};

verus! {

// The parser: a recursive descent over the token stream, producing a
// package or a failure that carries a lexer or grammar error code and a
// location. Tag nesting must be well formed: a closing tag's name must
// match its innermost open tag.
/// How a parse can fail: a lexical or grammar rule broken at a location
/// (with its code), an unexpected token, or an input that ended too
/// early.
#[derive(Clone, Copy, Debug, PartialEq, Eq, Structural)]
pub enum ParseError {
    /// A broken rule with its code, as the tokenizer reports them.
    User { error: Error },
    /// A token that no grammar rule expects at this place.
    UnrecognizedToken { location: usize },
    /// The input ended in the middle of a form.
    UnexpectedEnd,
}

/// Whether a bare imported name is acceptable: resource imports must
/// carry the sigil (only `$img` and `$font` exist), and the bare word
/// `img` is reserved for the image resource form.
pub open spec fn spec_import_name_ok(n: Seq<char>) -> bool {
    &&& (n.len() > 0 && n[0] == '$' ==> n == "$img"@ || n == "$font"@)
    &&& n != "img"@
}

/// Whether an import of this name is a resource import.
pub open spec fn spec_import_is_resource(n: Seq<char>) -> bool {
    n == "$img"@ || n == "$font"@
}

pub struct Parser<'a, B: ASTBuilder> {
    builder: &'a B,
    tk: Tokenizer,
    toks: Vec<Spanned<Tok>>,
    idx: usize,
}

impl<'a, B: ASTBuilder> Parser<'a, B> {
    pub closed spec fn wf(&self) -> bool {
        &&& self.idx <= self.toks@.len()
        &&& forall|i: int|
            0 <= i < self.toks@.len() ==> token_view_wf(
                (#[trigger] self.toks@[i]).1,
                self.tk.text_model().len() as int,
            )
    }

    pub closed spec fn remaining(&self) -> int {
        self.toks@.len() - self.idx
    }

    /// Runs the tokenizer to the end; a lexical failure ends the parse.
    /// The collected stream is exactly `spec_tokenize` of the input.
    fn tokenize(builder: &'a B, input: &str) -> (r: Result<Parser<'a, B>, ParseError>)
        requires
            input@.len() <= usize::MAX,
        ensures
            r matches Ok(p) ==> p.wf() && p.idx == 0 && p.tk.text_model() == input@ && (
            spec_tokenize(input@) matches Ok(ts) && p.toks@ == ts),
            r matches Err(e) ==> (spec_tokenize(input@) matches Err(le) && e == (
            ParseError::User { error: le })),
    {
        let mut tk = Tokenizer::new(input, 0);
        let mut toks: Vec<Spanned<Tok>> = Vec::new();
        proof {
            match spec_tokenize_from(input@, 0, TokState::Normal, TokState::Normal) {
                Result::Ok(rest) => {
                    assert(toks@ + rest =~= rest);
                },
                Result::Err(_) => {},
            }
        }
        loop
            invariant
                tk.wf(),
                tk.text_model() == input@,
                tk.shift_model() == 0,
                spec_tokenize(input@) == (match spec_tokenize_from(
                    input@,
                    tk.pos_model(),
                    tk.state_model(),
                    tk.prev_state_model(),
                ) {
                    Result::Ok(rest) => Ok::<Seq<Spanned<Tok>>, Error>(toks@ + rest),
                    Result::Err(e) => Err(e),
                }),
                forall|i: int|
                    0 <= i < toks@.len() ==> token_view_wf(
                        (#[trigger] toks@[i]).1,
                        tk.text_model().len() as int,
                    ),
            decreases tk.text_model().len() - tk.pos_model(),
        {
            proof {
                crate::tok::lemma_spec_next_progress(
                    tk.text_model(),
                    tk.pos_model(),
                    tk.state_model(),
                    tk.prev_state_model(),
                );
            }
            let ghost entry_pos = tk.pos_model();
            let ghost entry_state = tk.state_model();
            let ghost entry_prev = tk.prev_state_model();
            let ghost (stok, spos, sstate, sprev) = crate::tok::spec_next(
                tk.text_model(),
                entry_pos,
                entry_state,
                entry_prev,
            );
            match tk.next() {
                None => {
                    proof {
                        match spec_tokenize_from(input@, entry_pos, entry_state, entry_prev) {
                            Result::Ok(rest) => {
                                assert(toks@ + rest =~= toks@);
                            },
                            Result::Err(_) => {},
                        }
                    }
                    return Ok(Parser { builder, tk, toks, idx: 0 });
                },
                Some(Err(e)) => {
                    proof {
                        assert(stok matches Some(Result::Err(e0)) && e == e0);
                    }
                    return Err(ParseError::User { error: e });
                },
                Some(Ok(t)) => {
                    let ghost before = toks@;
                    toks.push(t);
                    proof {
                        assert(stok matches Some(Result::Ok(t0)) && t == t0);
                        match spec_tokenize_from(input@, spos, sstate, sprev) {
                            Result::Ok(rest) => {
                                assert(toks@ + rest =~= before + (Seq::empty().push(t) + rest));
                            },
                            Result::Err(_) => {},
                        }
                    }
                },
            }
        }
    }

    fn peek(&self) -> (r: Option<Spanned<Tok>>)
        requires
            self.wf(),
        ensures
            self.idx < self.toks@.len() ==> r == Some(self.toks@[self.idx as int]),
            self.idx >= self.toks@.len() ==> r is None,
            r matches Some((l, t, rr)) ==> token_view_wf(t, self.tk.text_model().len() as int),
    {
        if self.idx < self.toks.len() {
            Some(self.toks[self.idx])
        } else {
            None
        }
    }

    fn peek2(&self) -> (r: Option<Spanned<Tok>>)
        requires
            self.wf(),
        ensures
            r matches Some((l, t, rr)) ==> token_view_wf(t, self.tk.text_model().len() as int),
            self.toks@.len() - self.idx >= 2 ==> r == Some(self.toks@[self.idx + 1]),
            self.toks@.len() - self.idx < 2 ==> r is None,
    {
        if self.toks.len() - self.idx >= 2 {
            Some(self.toks[self.idx + 1])
        } else {
            None
        }
    }

    fn bump(&mut self)
        requires
            old(self).wf(),
            old(self).idx < old(self).toks@.len(),
        ensures
            final(self).wf(),
            final(self).idx == old(self).idx + 1,
            final(self).toks == old(self).toks,
            final(self).tk == old(self).tk,
            final(self).builder == old(self).builder,
            final(self).remaining() == old(self).remaining() - 1,
    {
        let n = self.toks.len();
        self.idx = self.idx + 1;
    }

    /// The text a payload token points at.
    fn view_text(&self, v: StrView) -> (r: String)
        requires
            self.wf(),
            v.begin_at <= v.finish_at,
            v.finish_at <= self.tk.text_model().len(),
        ensures
            r@ == self.tk.text_model().subrange(v.begin_at as int, v.finish_at as int),
    {
        self.tk.text_of(&v)
    }

    /// An identifier from an `Id` token's view, with its span; strips no
    /// sigil.
    fn ident_of(&self, l: usize, v: StrView, r: usize) -> (id: Ident)
        requires
            self.wf(),
            v.begin_at <= v.finish_at,
            v.finish_at <= self.tk.text_model().len(),
        ensures
            id.name@ == self.tk.text_model().subrange(v.begin_at as int, v.finish_at as int),
            id.span == B::spec_span(Span(l, r)),
    {
        self.builder.ident(Span(l, r), self.view_text(v))
    }

    fn err_here<T>(&self) -> (r: Result<T, ParseError>)
        requires
            self.wf(),
        ensures
            r matches Err(e) && e == sp_err(self.toks@, self.idx as int),
    {
        match self.peek() {
            Some((l, _, _)) => Err(ParseError::UnrecognizedToken { location: l }),
            None => Err(ParseError::UnexpectedEnd),
        }
    }

    fn expect(&mut self, t: Tok) -> (r: Result<Spanned<Tok>, ParseError>)
        requires
            old(self).wf(),
        ensures
            final(self).wf(),
            final(self).tk == old(self).tk,
            final(self).toks == old(self).toks,
            r is Ok ==> final(self).remaining() == old(self).remaining() - 1 && old(self).remaining()
                > 0,
            r is Err ==> *final(self) == *old(self),
            r matches Ok(tt) ==> sp_at(old(self).toks@, old(self).idx as int, t) && tt == old(
                self,
            ).toks@[old(self).idx as int] && final(self).idx == old(self).idx + 1,
            r matches Err(e) ==> !sp_at(old(self).toks@, old(self).idx as int, t) && e == sp_err(
                old(self).toks@,
                old(self).idx as int,
            ),
    {
        match self.peek() {
            Some((l, tok, rr)) => {
                if tok == t {
                    self.bump();
                    Ok((l, tok, rr))
                } else {
                    Err(ParseError::UnrecognizedToken { location: l })
                }
            },
            None => Err(ParseError::UnexpectedEnd),
        }
    }

    /// Consumes an `Id` token and returns its identifier.
    fn expect_ident(&mut self) -> (r: Result<Ident, ParseError>)
        requires
            old(self).wf(),
        ensures
            final(self).wf(),
            final(self).tk == old(self).tk,
            final(self).toks == old(self).toks,
            r is Ok ==> final(self).remaining() == old(self).remaining() - 1 && old(self).remaining()
                > 0,
            r is Err ==> *final(self) == *old(self),
            r is Ok ==> sp_is_id(old(self).toks@, old(self).idx as int) && final(self).idx == old(
                self,
            ).idx + 1,
            r matches Err(e) ==> !sp_is_id(old(self).toks@, old(self).idx as int) && e == sp_err(
                old(self).toks@,
                old(self).idx as int,
            ),
    {
        match self.peek() {
            Some((l, Tok::Id(v), rr)) => {
                let id = self.ident_of(l, v, rr);
                self.bump();
                Ok(id)
            },
            Some((l, _, _)) => Err(ParseError::UnrecognizedToken { location: l }),
            None => Err(ParseError::UnexpectedEnd),
        }
    }

    /// A comma-separated identifier list, up to (not consuming) `close`.
    fn parse_id_list(&mut self, close: Tok) -> (r: Result<Vec<Ident>, ParseError>)
        requires
            old(self).wf(),
        ensures
            final(self).wf(),
            final(self).tk == old(self).tk,
            final(self).toks == old(self).toks,
            final(self).remaining() <= old(self).remaining(),
            ({
                let s = sp_id_list(old(self).toks@, old(self).idx as int, close);
                &&& (r is Ok ==> (s matches Ok(j) && final(self).idx as int == j))
                &&& (r matches Err(e) ==> s == Err::<int, ParseError>(e))
            }),
    {
        let mut ids: Vec<Ident> = Vec::new();
        match self.peek() {
            Some((_, t, _)) if t == close => {
                return Ok(ids);
            },
            _ => {},
        }
        loop
            invariant
                self.wf(),
                self.tk == old(self).tk,
                self.toks == old(self).toks,
                self.remaining() <= old(self).remaining(),
                sp_id_list(old(self).toks@, old(self).idx as int, close) == sp_id_list_rest(
                    self.toks@,
                    self.idx as int,
                ),
            decreases self.remaining(),
        {
            let id = match self.expect_ident() {
                Ok(id) => id,
                Err(e) => {
                    return Err(e);
                },
            };
            ids.push(id);
            match self.peek() {
                Some((_, Tok::Comma, _)) => {
                    self.bump();
                },
                _ => {
                    return Ok(ids);
                },
            }
        }
    }
}

impl<'a, B: ASTBuilder> Parser<'a, B> {
    /// Do two names spell the same text?
    fn names_eq(a: &String, b: &String) -> (r: bool)
        ensures
            r == (a@ == b@),
    {
        a.eq(b)
    }

    fn is_word(name: &String, lit: &str) -> (r: bool)
        ensures
            r == (name@ == lit@),
    {
        name.eq(&String::from_str(lit))
    }

    /// Whether this bare imported name is allowed, exactly as
    /// `spec_import_name_ok` says: with a sigil it must be one of the two
    /// resources, and the bare resource words are refused.
    fn import_name_ok(&self, v: StrView, name: &String) -> (r: bool)
        requires
            self.wf(),
            v.begin_at <= v.finish_at,
            v.finish_at <= self.tk.text_model().len(),
            name@ == self.tk.text_model().subrange(v.begin_at as int, v.finish_at as int),
        ensures
            r == spec_import_name_ok(name@),
    {
        proof {
            reveal_strlit("$img");
            reveal_strlit("$font");
            reveal_strlit("img");
            reveal_strlit("font");
        }
        let starts_dollar = v.begin_at < v.finish_at && self.tk.char_at(v.begin_at) == '$';
        proof {
            if v.begin_at < v.finish_at {
                assert(name@.len() > 0);
                assert(name@[0] == self.tk.text_model()[v.begin_at as int]);
            } else {
                assert(name@.len() == 0);
            }
        }
        if starts_dollar {
            Self::is_word(name, "$img") || Self::is_word(name, "$font")
        } else {
            !Self::is_word(name, "img")
        }
    }

    fn parse_import(&mut self) -> (r: Result<Import, ParseError>)
        requires
            old(self).wf(),
        ensures
            final(self).wf(),
            final(self).tk == old(self).tk,
            final(self).toks == old(self).toks,
            final(self).remaining() <= old(self).remaining(),
            r is Ok ==> final(self).remaining() < old(self).remaining(),
            ({
                let s = sp_import(old(self).tk.text_model(), old(self).toks@, old(self).idx as int);
                &&& (r is Ok ==> (s matches Ok(j) && final(self).idx as int == j))
                &&& (r matches Err(e) ==> s == Err::<int, ParseError>(e))
            }),
    {
        let (l0, _, _) = match self.expect(Tok::Import) {
            Ok(t) => t,
            Err(e) => {
                return Err(e);
            },
        };
        match self.peek() {
            Some((_, Tok::Star, _)) => {
                self.bump();
                if let Err(e) = self.expect(Tok::From) {
                    return Err(e);
                }
                let (path, _, _) = match self.expect_strlit() {
                    Ok(t) => t,
                    Err(e) => {
                        return Err(e);
                    },
                };
                let (_, _, rend) = match self.expect(Tok::Semi) {
                    Ok(t) => t,
                    Err(e) => {
                        return Err(e);
                    },
                };
                Ok(self.builder.import(Span(l0, rend), ImportSymbols::All, path))
            },
            Some((_, Tok::StringLiteral(v), _)) => {
                let path = self.view_text(v);
                self.bump();
                let (_, _, rend) = match self.expect(Tok::Semi) {
                    Ok(t) => t,
                    Err(e) => {
                        return Err(e);
                    },
                };
                Ok(self.builder.import(Span(l0, rend), ImportSymbols::All, path))
            },
            Some((_, Tok::LeftBrace, _)) => {
                self.bump();
                let ids = match self.parse_id_list(Tok::RightBrace) {
                    Ok(ids) => ids,
                    Err(e) => {
                        return Err(e);
                    },
                };
                if let Err(e) = self.expect(Tok::RightBrace) {
                    return Err(e);
                }
                if let Err(e) = self.expect(Tok::From) {
                    return Err(e);
                }
                let (path, _, _) = match self.expect_strlit() {
                    Ok(t) => t,
                    Err(e) => {
                        return Err(e);
                    },
                };
                let (_, _, rend) = match self.expect(Tok::Semi) {
                    Ok(t) => t,
                    Err(e) => {
                        return Err(e);
                    },
                };
                Ok(self.builder.import(Span(l0, rend), ImportSymbols::Only(ids), path))
            },
            Some((l, Tok::Id(v), rr)) => {
                let name = self.view_text(v);
                if !self.import_name_ok(v, &name) {
                    return Err(
                        ParseError::User {
                            error: Error { location: l, code: ErrorCode::OnlyFontOrImg },
                        },
                    );
                }
                let ident = self.ident_of(l, v, rr);
                self.bump();
                if let Err(e) = self.expect(Tok::From) {
                    return Err(e);
                }
                let (path, _, _) = match self.expect_strlit() {
                    Ok(t) => t,
                    Err(e) => {
                        return Err(e);
                    },
                };
                let (_, _, rend) = match self.expect(Tok::Semi) {
                    Ok(t) => t,
                    Err(e) => {
                        return Err(e);
                    },
                };
                Ok(
                    self.builder.import(
                        Span(l0, rend),
                        ImportSymbols::AllAsIdent(ident),
                        path,
                    ),
                )
            },
            _ => self.err_here(),
        }
    }

    fn expect_strlit(&mut self) -> (r: Result<(String, usize, usize), ParseError>)
        requires
            old(self).wf(),
        ensures
            final(self).wf(),
            final(self).tk == old(self).tk,
            final(self).toks == old(self).toks,
            r is Ok ==> final(self).remaining() == old(self).remaining() - 1 && old(self).remaining()
                > 0,
            r is Err ==> *final(self) == *old(self),
            r is Ok ==> (0 <= old(self).idx < old(self).toks@.len() && old(self).toks@[old(
                self,
            ).idx as int].1 is StringLiteral) && final(self).idx == old(self).idx + 1,
            r matches Err(e) ==> !(0 <= old(self).idx < old(self).toks@.len() && old(self).toks@[old(
                self,
            ).idx as int].1 is StringLiteral) && e == sp_err(
                old(self).toks@,
                old(self).idx as int,
            ),
    {
        match self.peek() {
            Some((l, Tok::StringLiteral(v), rr)) => {
                let text = self.view_text(v);
                self.bump();
                Ok((text, l, rr))
            },
            Some((l, _, _)) => Err(ParseError::UnrecognizedToken { location: l }),
            None => Err(ParseError::UnexpectedEnd),
        }
    }

    /// A name token whose leading dot is stripped; fails on an empty
    /// name.
    fn expect_dot_ident(&mut self) -> (r: Result<Ident, ParseError>)
        requires
            old(self).wf(),
        ensures
            final(self).wf(),
            final(self).tk == old(self).tk,
            final(self).toks == old(self).toks,
            r is Ok ==> final(self).remaining() == old(self).remaining() - 1 && old(self).remaining()
                > 0,
            r is Err ==> *final(self) == *old(self),
            r is Ok ==> sp_dot_ident_ok(old(self).toks@, old(self).idx as int) && final(self).idx
                == old(self).idx + 1,
            r matches Err(e) ==> !sp_dot_ident_ok(old(self).toks@, old(self).idx as int) && e
                == sp_err(old(self).toks@, old(self).idx as int),
    {
        match self.peek() {
            Some((l, Tok::DotId(v), rr)) => {
                if v.finish_at - v.begin_at <= 1 {
                    return Err(ParseError::UnrecognizedToken { location: l });
                }
                let stripped = StrView { begin_at: v.begin_at + 1, finish_at: v.finish_at };
                let id = self.ident_of(l, stripped, rr);
                self.bump();
                Ok(id)
            },
            Some((l, _, _)) => Err(ParseError::UnrecognizedToken { location: l }),
            None => Err(ParseError::UnexpectedEnd),
        }
    }

    /// An integer or non-integral numeric constant from a number token's
    /// text: digits without a dot that fit a 32-bit integer are integers,
    /// anything else keeps its literal text.
    fn number_constant(&self, v: StrView) -> (r: Constant)
        requires
            self.wf(),
            v.begin_at <= v.finish_at,
            v.finish_at <= self.tk.text_model().len(),
        ensures
            r is Integer || r is Float,
    {
        let mut i = v.begin_at;
        let mut acc: u64 = 0;
        let mut fits = true;
        while i < v.finish_at
            invariant
                self.wf(),
                v.begin_at <= i <= v.finish_at,
                v.finish_at <= self.tk.text_model().len(),
                acc <= 0x7fffffff,
            decreases v.finish_at - i,
        {
            let c = self.tk.char_at(i);
            if c == '.' {
                return Constant::Float(self.view_text(v));
            }
            if '0' <= c && c <= '9' {
                let d = (c as u32) - ('0' as u32);
                if acc > 214748364 || (acc == 214748364 && d > 7) {
                    fits = false;
                    acc = 0;
                } else {
                    acc = acc * 10 + (d as u64);
                }
            }
            i = i + 1;
        }
        if fits {
            Constant::Integer(acc as i32)
        } else {
            Constant::Float(self.view_text(v))
        }
    }

    fn parse_path_expr(&mut self) -> (r: Result<PathExpr, ParseError>)
        requires
            old(self).wf(),
        ensures
            final(self).wf(),
            final(self).tk == old(self).tk,
            final(self).toks == old(self).toks,
            final(self).remaining() <= old(self).remaining(),
            r is Ok ==> final(self).remaining() < old(self).remaining(),
            ({
                let s = sp_path(old(self).toks@, old(self).idx as int);
                &&& (r is Ok ==> (s matches Ok(j) && final(self).idx as int == j))
                &&& (r matches Err(e) ==> s == Err::<int, ParseError>(e))
            }),
    {
        let base = match self.expect_ident() {
            Ok(id) => id,
            Err(e) => {
                return Err(e);
            },
        };
        let mut pe = PathExpr::Variable(base);
        // A bare name may continue the chain only right after an
        // optional guard, as in `a.b?c`.
        let mut after_guard = false;
        loop
            invariant
                self.wf(),
                self.tk == old(self).tk,
                self.toks == old(self).toks,
                self.remaining() < old(self).remaining(),
                sp_path(old(self).toks@, old(self).idx as int) == sp_path_rest(
                    self.toks@,
                    self.idx as int,
                    after_guard,
                ),
            decreases self.remaining(),
        {
            match self.peek() {
                Some((_, Tok::DotId(_), _)) => {
                    let prop = match self.expect_dot_ident() {
                        Ok(id) => id,
                        Err(e) => {
                            return Err(e);
                        },
                    };
                    pe = PathExpr::PropertyAccess { map: Box::new(pe), property: prop };
                    after_guard = false;
                },
                Some((l, Tok::Id(v), rr)) => {
                    if !after_guard {
                        return Ok(pe);
                    }
                    let prop = self.ident_of(l, v, rr);
                    self.bump();
                    pe = PathExpr::PropertyAccess { map: Box::new(pe), property: prop };
                    after_guard = false;
                },
                Some((_, Tok::Question, _)) => {
                    self.bump();
                    pe = PathExpr::Optional { opt: Box::new(pe) };
                    after_guard = true;
                },
                Some((_, Tok::LeftBracket, _)) => {
                    self.bump();
                    let idx = match self.peek() {
                        Some((_, Tok::Number(v), _)) => {
                            let c = self.number_constant(v);
                            self.bump();
                            c
                        },
                        _ => {
                            return self.err_here();
                        },
                    };
                    if let Err(e) = self.expect(Tok::RightBracket) {
                        return Err(e);
                    }
                    pe = PathExpr::Index { map: Box::new(pe), index: idx };
                    after_guard = false;
                },
                _ => {
                    return Ok(pe);
                },
            }
        }
    }

    fn parse_primary(&mut self) -> (r: Result<Expr, ParseError>)
        requires
            old(self).wf(),
        ensures
            final(self).wf(),
            final(self).tk == old(self).tk,
            final(self).toks == old(self).toks,
            final(self).remaining() <= old(self).remaining(),
            r is Ok ==> final(self).remaining() < old(self).remaining(),
            ({
                let s = sp_primary(old(self).tk.text_model(), old(self).toks@, old(self).idx as int);
                &&& (r is Ok ==> (s matches Ok(j) && final(self).idx as int == j))
                &&& (r matches Err(e) ==> s == Err::<int, ParseError>(e))
            }),
        decreases old(self).remaining(), 2int,
    {
        match self.peek() {
            Some((_, Tok::Number(v), _)) => {
                let c = self.number_constant(v);
                self.bump();
                Ok(Expr::Constant(c))
            },
            Some((_, Tok::StringLiteral(v), _)) => {
                let text = self.view_text(v);
                self.bump();
                Ok(Expr::Constant(Constant::StrLit(text)))
            },
            Some((l, Tok::Id(v), rr)) => {
                let text = self.view_text(v);
                if Self::is_word(&text, "true") {
                    self.bump();
                    Ok(Expr::Constant(Constant::Boolean(true)))
                } else if Self::is_word(&text, "false") {
                    self.bump();
                    Ok(Expr::Constant(Constant::Boolean(false)))
                } else {
                    match self.parse_path_expr() {
                        Ok(pe) => Ok(Expr::PathExpr(pe)),
                        Err(e) => Err(e),
                    }
                }
            },
            Some((_, Tok::LeftParen, _)) => {
                self.bump();
                let e = match self.parse_expr() {
                    Ok(e) => e,
                    Err(e) => {
                        return Err(e);
                    },
                };
                if let Err(e) = self.expect(Tok::RightParen) {
                    return Err(e);
                }
                Ok(e)
            },
            _ => self.err_here(),
        }
    }

    fn parse_unary(&mut self) -> (r: Result<Expr, ParseError>)
        requires
            old(self).wf(),
        ensures
            final(self).wf(),
            final(self).tk == old(self).tk,
            final(self).toks == old(self).toks,
            final(self).remaining() <= old(self).remaining(),
            r is Ok ==> final(self).remaining() < old(self).remaining(),
            ({
                let s = sp_unary(old(self).tk.text_model(), old(self).toks@, old(self).idx as int);
                &&& (r is Ok ==> (s matches Ok(j) && final(self).idx as int == j))
                &&& (r matches Err(e) ==> s == Err::<int, ParseError>(e))
            }),
        decreases old(self).remaining(), 3int,
    {
        match self.peek() {
            Some((_, Tok::Bang, _)) => {
                self.bump();
                match self.parse_unary() {
                    Ok(e) => Ok(Expr::Not(Box::new(e))),
                    Err(e) => Err(e),
                }
            },
            Some((_, Tok::Minus, _)) => {
                self.bump();
                match self.parse_unary() {
                    Ok(e) => Ok(Expr::Signed(Sign::Minus, Box::new(e))),
                    Err(e) => Err(e),
                }
            },
            Some((_, Tok::Plus, _)) => {
                self.bump();
                match self.parse_unary() {
                    Ok(e) => Ok(Expr::Signed(Sign::Plus, Box::new(e))),
                    Err(e) => Err(e),
                }
            },
            _ => self.parse_primary(),
        }
    }

    fn parse_pow(&mut self) -> (r: Result<Expr, ParseError>)
        requires
            old(self).wf(),
        ensures
            final(self).wf(),
            final(self).tk == old(self).tk,
            final(self).toks == old(self).toks,
            final(self).remaining() <= old(self).remaining(),
            r is Ok ==> final(self).remaining() < old(self).remaining(),
            ({
                let s = sp_pow(old(self).tk.text_model(), old(self).toks@, old(self).idx as int);
                &&& (r is Ok ==> (s matches Ok(j) && final(self).idx as int == j))
                &&& (r matches Err(e) ==> s == Err::<int, ParseError>(e))
            }),
        decreases old(self).remaining(), 4int,
    {
        let mut e = match self.parse_unary() {
            Ok(e) => e,
            Err(e) => {
                return Err(e);
            },
        };
        loop
            invariant
                self.wf(),
                self.tk == old(self).tk,
                self.toks == old(self).toks,
                self.remaining() < old(self).remaining(),
                sp_pow(old(self).tk.text_model(), old(self).toks@, old(self).idx as int)
                    == sp_pow_rest(old(self).tk.text_model(), self.toks@, self.idx as int),
            decreases self.remaining(),
        {
            match self.peek() {
                Some((_, Tok::Caret, _)) => {
                    self.bump();
                    let rhs = match self.parse_unary() {
                        Ok(e) => e,
                        Err(e) => {
                            return Err(e);
                        },
                    };
                    e = Expr::BinaryOp(Box::new(e), OpCode::Pow, Box::new(rhs));
                },
                _ => {
                    return Ok(e);
                },
            }
        }
    }

    fn parse_mul(&mut self) -> (r: Result<Expr, ParseError>)
        requires
            old(self).wf(),
        ensures
            final(self).wf(),
            final(self).tk == old(self).tk,
            final(self).toks == old(self).toks,
            final(self).remaining() <= old(self).remaining(),
            r is Ok ==> final(self).remaining() < old(self).remaining(),
            ({
                let s = sp_mul(old(self).tk.text_model(), old(self).toks@, old(self).idx as int);
                &&& (r is Ok ==> (s matches Ok(j) && final(self).idx as int == j))
                &&& (r matches Err(e) ==> s == Err::<int, ParseError>(e))
            }),
        decreases old(self).remaining(), 5int,
    {
        let mut e = match self.parse_pow() {
            Ok(e) => e,
            Err(e) => {
                return Err(e);
            },
        };
        loop
            invariant
                self.wf(),
                self.tk == old(self).tk,
                self.toks == old(self).toks,
                self.remaining() < old(self).remaining(),
                sp_mul(old(self).tk.text_model(), old(self).toks@, old(self).idx as int)
                    == sp_mul_rest(old(self).tk.text_model(), self.toks@, self.idx as int),
            decreases self.remaining(),
        {
            let op = match self.peek() {
                Some((_, Tok::Star, _)) => OpCode::Mul,
                Some((_, Tok::Div, _)) => OpCode::Div,
                Some((_, Tok::Mod, _)) => OpCode::Mod,
                _ => {
                    return Ok(e);
                },
            };
            self.bump();
            let rhs = match self.parse_pow() {
                Ok(e) => e,
                Err(e) => {
                    return Err(e);
                },
            };
            e = Expr::BinaryOp(Box::new(e), op, Box::new(rhs));
        }
    }

    fn parse_add(&mut self) -> (r: Result<Expr, ParseError>)
        requires
            old(self).wf(),
        ensures
            final(self).wf(),
            final(self).tk == old(self).tk,
            final(self).toks == old(self).toks,
            final(self).remaining() <= old(self).remaining(),
            r is Ok ==> final(self).remaining() < old(self).remaining(),
            ({
                let s = sp_add(old(self).tk.text_model(), old(self).toks@, old(self).idx as int);
                &&& (r is Ok ==> (s matches Ok(j) && final(self).idx as int == j))
                &&& (r matches Err(e) ==> s == Err::<int, ParseError>(e))
            }),
        decreases old(self).remaining(), 6int,
    {
        let mut e = match self.parse_mul() {
            Ok(e) => e,
            Err(e) => {
                return Err(e);
            },
        };
        loop
            invariant
                self.wf(),
                self.tk == old(self).tk,
                self.toks == old(self).toks,
                self.remaining() < old(self).remaining(),
                sp_add(old(self).tk.text_model(), old(self).toks@, old(self).idx as int)
                    == sp_add_rest(old(self).tk.text_model(), self.toks@, self.idx as int),
            decreases self.remaining(),
        {
            let op = match self.peek() {
                Some((_, Tok::Plus, _)) => OpCode::Add,
                Some((_, Tok::Minus, _)) => OpCode::Sub,
                _ => {
                    return Ok(e);
                },
            };
            self.bump();
            let rhs = match self.parse_mul() {
                Ok(e) => e,
                Err(e) => {
                    return Err(e);
                },
            };
            e = Expr::BinaryOp(Box::new(e), op, Box::new(rhs));
        }
    }

    fn parse_cmp(&mut self) -> (r: Result<Expr, ParseError>)
        requires
            old(self).wf(),
        ensures
            final(self).wf(),
            final(self).tk == old(self).tk,
            final(self).toks == old(self).toks,
            final(self).remaining() <= old(self).remaining(),
            r is Ok ==> final(self).remaining() < old(self).remaining(),
            ({
                let s = sp_cmp(old(self).tk.text_model(), old(self).toks@, old(self).idx as int);
                &&& (r is Ok ==> (s matches Ok(j) && final(self).idx as int == j))
                &&& (r matches Err(e) ==> s == Err::<int, ParseError>(e))
            }),
        decreases old(self).remaining(), 7int,
    {
        let mut e = match self.parse_add() {
            Ok(e) => e,
            Err(e) => {
                return Err(e);
            },
        };
        loop
            invariant
                self.wf(),
                self.tk == old(self).tk,
                self.toks == old(self).toks,
                self.remaining() < old(self).remaining(),
                sp_cmp(old(self).tk.text_model(), old(self).toks@, old(self).idx as int)
                    == sp_cmp_rest(old(self).tk.text_model(), self.toks@, self.idx as int),
            decreases self.remaining(),
        {
            let op = match self.peek() {
                Some((_, Tok::EqualsEquals, _)) => OpCode::EqEq,
                Some((_, Tok::BangEquals, _)) => OpCode::NotEq,
                Some((_, Tok::LessThan, _)) => OpCode::LessThan,
                Some((_, Tok::GreaterThan, _)) => OpCode::GreaterThan,
                Some((_, Tok::LessThanOrEqual, _)) => OpCode::LessThanOrEq,
                Some((_, Tok::GreaterThanOrEqual, _)) => OpCode::GreaterThanOrEq,
                _ => {
                    return Ok(e);
                },
            };
            self.bump();
            let rhs = match self.parse_add() {
                Ok(e) => e,
                Err(e) => {
                    return Err(e);
                },
            };
            e = Expr::BinaryOp(Box::new(e), op, Box::new(rhs));
        }
    }

    fn parse_and(&mut self) -> (r: Result<Expr, ParseError>)
        requires
            old(self).wf(),
        ensures
            final(self).wf(),
            final(self).tk == old(self).tk,
            final(self).toks == old(self).toks,
            final(self).remaining() <= old(self).remaining(),
            r is Ok ==> final(self).remaining() < old(self).remaining(),
            ({
                let s = sp_and(old(self).tk.text_model(), old(self).toks@, old(self).idx as int);
                &&& (r is Ok ==> (s matches Ok(j) && final(self).idx as int == j))
                &&& (r matches Err(e) ==> s == Err::<int, ParseError>(e))
            }),
        decreases old(self).remaining(), 8int,
    {
        let mut e = match self.parse_cmp() {
            Ok(e) => e,
            Err(e) => {
                return Err(e);
            },
        };
        loop
            invariant
                self.wf(),
                self.tk == old(self).tk,
                self.toks == old(self).toks,
                self.remaining() < old(self).remaining(),
                sp_and(old(self).tk.text_model(), old(self).toks@, old(self).idx as int)
                    == sp_and_rest(old(self).tk.text_model(), self.toks@, self.idx as int),
            decreases self.remaining(),
        {
            match self.peek() {
                Some((_, Tok::And, _)) => {
                    self.bump();
                    let rhs = match self.parse_cmp() {
                        Ok(e) => e,
                        Err(e) => {
                            return Err(e);
                        },
                    };
                    e = Expr::BinaryOp(Box::new(e), OpCode::And, Box::new(rhs));
                },
                _ => {
                    return Ok(e);
                },
            }
        }
    }

    fn parse_expr(&mut self) -> (r: Result<Expr, ParseError>)
        requires
            old(self).wf(),
        ensures
            final(self).wf(),
            final(self).tk == old(self).tk,
            final(self).toks == old(self).toks,
            final(self).remaining() <= old(self).remaining(),
            r is Ok ==> final(self).remaining() < old(self).remaining(),
            ({
                let s = sp_expr(old(self).tk.text_model(), old(self).toks@, old(self).idx as int);
                &&& (r is Ok ==> (s matches Ok(j) && final(self).idx as int == j))
                &&& (r matches Err(e) ==> s == Err::<int, ParseError>(e))
            }),
        decreases old(self).remaining(), 9int,
    {
        let mut e = match self.parse_and() {
            Ok(e) => e,
            Err(e) => {
                return Err(e);
            },
        };
        loop
            invariant
                self.wf(),
                self.tk == old(self).tk,
                self.toks == old(self).toks,
                self.remaining() < old(self).remaining(),
                sp_expr(old(self).tk.text_model(), old(self).toks@, old(self).idx as int)
                    == sp_expr_rest(old(self).tk.text_model(), self.toks@, self.idx as int),
            decreases self.remaining(),
        {
            match self.peek() {
                Some((_, Tok::Or, _)) => {
                    self.bump();
                    let rhs = match self.parse_and() {
                        Ok(e) => e,
                        Err(e) => {
                            return Err(e);
                        },
                    };
                    e = Expr::BinaryOp(Box::new(e), OpCode::Or, Box::new(rhs));
                },
                _ => {
                    return Ok(e);
                },
            }
        }
    }
}

impl<'a, B: ASTBuilder> Parser<'a, B> {
    /// Either a brace-enclosed property object or a plain expression.
    #[verifier::rlimit(100)]
    #[verifier::spinoff_prover]
    fn parse_object_value(&mut self) -> (r: Result<ObjectValue, ParseError>)
        requires
            old(self).wf(),
        ensures
            final(self).wf(),
            final(self).tk == old(self).tk,
            final(self).toks == old(self).toks,
            final(self).remaining() <= old(self).remaining(),
            r is Ok ==> final(self).remaining() < old(self).remaining(),
            ({
                let s = sp_object_value(
                    old(self).tk.text_model(),
                    old(self).toks@,
                    old(self).idx as int,
                );
                &&& (r is Ok ==> (s matches Ok(j) && final(self).idx as int == j))
                &&& (r matches Err(e) ==> s == Err::<int, ParseError>(e))
            }),
        decreases old(self).remaining(), 11int,
    {
        match self.peek() {
            Some((_, Tok::LeftBrace, _)) => {
                self.bump();
                let props = match self.parse_object_props() {
                    Ok(p) => p,
                    Err(e) => {
                        return Err(e);
                    },
                };
                if let Err(e) = self.expect(Tok::RightBrace) {
                    return Err(e);
                }
                Ok(ObjectValue::Props(props))
            },
            Some((l, Tok::Id(v), rr)) => {
                // An object shape may also be written `new Name`.
                let head = self.view_text(v);
                if Self::is_word(&head, "new") {
                    self.bump();
                    let alias = match self.expect_ident() {
                        Ok(id) => id,
                        Err(e) => {
                            return Err(e);
                        },
                    };
                    // Constructor arguments are accepted and checked,
                    // though the shape keeps only the name.
                    match self.peek() {
                        Some((_, Tok::LeftParen, _)) => {
                            self.bump();
                            if let Err(e) = self.parse_ctor_args() {
                                return Err(e);
                            }
                            if let Err(e) = self.expect(Tok::RightParen) {
                                return Err(e);
                            }
                        },
                        _ => {},
                    }
                    Ok(ObjectValue::Expr(Box::new(Expr::PathExpr(PathExpr::Variable(alias)))))
                } else {
                    match self.parse_expr() {
                        Ok(e) => Ok(ObjectValue::Expr(Box::new(e))),
                        Err(e) => Err(e),
                    }
                }
            },
            _ => {
                match self.parse_expr() {
                    Ok(e) => Ok(ObjectValue::Expr(Box::new(e))),
                    Err(e) => Err(e),
                }
            },
        }
    }

    /// The properties of a brace-enclosed object, up to (not consuming)
    /// the closing brace.
    fn parse_object_props(&mut self) -> (r: Result<Vec<(String, ObjectValue)>, ParseError>)
        requires
            old(self).wf(),
        ensures
            final(self).wf(),
            final(self).tk == old(self).tk,
            final(self).toks == old(self).toks,
            final(self).remaining() <= old(self).remaining(),
            ({
                let s = sp_props_rest(
                    old(self).tk.text_model(),
                    old(self).toks@,
                    old(self).idx as int,
                );
                &&& (r is Ok ==> (s matches Ok(j) && final(self).idx as int == j))
                &&& (r matches Err(e) ==> s == Err::<int, ParseError>(e))
            }),
        decreases old(self).remaining(), 10int,
    {
        let mut props: Vec<(String, ObjectValue)> = Vec::new();
        loop
            invariant
                self.wf(),
                self.tk == old(self).tk,
                self.toks == old(self).toks,
                self.remaining() <= old(self).remaining(),
                sp_props_rest(old(self).tk.text_model(), old(self).toks@, old(self).idx as int)
                    == sp_props_rest(old(self).tk.text_model(), self.toks@, self.idx as int),
            decreases self.remaining(),
        {
            match self.peek() {
                Some((_, Tok::RightBrace, _)) => {
                    return Ok(props);
                },
                Some((l, Tok::Id(v), rr)) => {
                    let key = self.view_text(v);
                    self.bump();
                    if let Err(e) = self.expect(Tok::Colon) {
                        return Err(e);
                    }
                    let val = match self.parse_object_value() {
                        Ok(v) => v,
                        Err(e) => {
                            return Err(e);
                        },
                    };
                    props.push((key, val));
                    match self.peek() {
                        Some((_, Tok::Comma, _)) => {
                            self.bump();
                        },
                        _ => {
                            return Ok(props);
                        },
                    }
                },
                _ => {
                    return self.err_here();
                },
            }
        }
    }

    /// Constructor arguments, up to (not consuming) the closing
    /// parenthesis.
    fn parse_ctor_args(&mut self) -> (r: Result<(), ParseError>)
        requires
            old(self).wf(),
        ensures
            final(self).wf(),
            final(self).tk == old(self).tk,
            final(self).toks == old(self).toks,
            final(self).remaining() <= old(self).remaining(),
            ({
                let s = sp_ctor_rest(
                    old(self).tk.text_model(),
                    old(self).toks@,
                    old(self).idx as int,
                );
                &&& (r is Ok ==> (s matches Ok(j) && final(self).idx as int == j))
                &&& (r matches Err(e) ==> s == Err::<int, ParseError>(e))
            }),
        decreases old(self).remaining(), 10int,
    {
        loop
            invariant
                self.wf(),
                self.tk == old(self).tk,
                self.toks == old(self).toks,
                self.remaining() <= old(self).remaining(),
                sp_ctor_rest(old(self).tk.text_model(), old(self).toks@, old(self).idx as int)
                    == sp_ctor_rest(old(self).tk.text_model(), self.toks@, self.idx as int),
            decreases self.remaining(),
        {
            match self.peek() {
                Some((_, Tok::RightParen, _)) => {
                    return Ok(());
                },
                _ => {},
            }
            if let Err(e) = self.parse_expr() {
                return Err(e);
            }
            match self.peek() {
                Some((_, Tok::Comma, _)) => {
                    self.bump();
                },
                _ => {
                    return Ok(());
                },
            }
        }
    }

    /// One crop entry name must be one of the four window fields.
    fn crop_slot(name: &String) -> (r: Option<u8>)
        ensures
            r matches Some(k) ==> k < 4,
            (r is Some) == sp_name_ok(name@),
    {
        if Self::is_word(name, "x") {
            Some(0)
        } else if Self::is_word(name, "y") {
            Some(1)
        } else if Self::is_word(name, "w") {
            Some(2)
        } else if Self::is_word(name, "h") {
            Some(3)
        } else {
            None
        }
    }

    /// Does some named entry fall outside the four window fields?
    fn entries_badname(entries: &Vec<(Option<String>, NumLit)>) -> (r: bool)
        ensures
            r == sp_entries_badname(entries@),
    {
        let mut i: usize = 0;
        while i < entries.len()
            invariant
                i <= entries@.len(),
                forall|k: int|
                    0 <= k < i ==> ((#[trigger] entries@[k].0) matches Some(nm) ==> sp_name_ok(
                        nm@,
                    )),
            decreases entries@.len() - i,
        {
            match &entries[i].0 {
                Some(name) => {
                    if Self::crop_slot(name).is_none() {
                        proof {
                            assert(entries@[i as int].0 matches Some(nm) && !sp_name_ok(nm@));
                        }
                        return true;
                    }
                },
                None => {},
            }
            i = i + 1;
        }
        false
    }

    /// The crop entries, positional or named, up to (not consuming) the
    /// closing bracket; follows `sp_crop_rest` over the facts of the
    /// entries collected so far.
    fn parse_crop_entries(&mut self, entries: &mut Vec<(Option<String>, NumLit)>) -> (r: Result<
        (),
        ParseError,
    >)
        requires
            old(self).wf(),
        ensures
            final(self).wf(),
            final(self).tk == old(self).tk,
            final(self).toks == old(self).toks,
            final(self).remaining() <= old(self).remaining(),
            ({
                let s = sp_crop_rest(
                    old(self).tk.text_model(),
                    old(self).toks@,
                    old(self).idx as int,
                    old(entries)@.len() as int,
                    sp_entries_allnone(old(entries)@),
                    sp_entries_allsome(old(entries)@),
                    sp_entries_badname(old(entries)@),
                );
                &&& (r is Ok ==> (s matches Ok(tup) && final(self).idx as int == tup.0 && tup.1
                    == final(entries)@.len() && tup.2 == sp_entries_allnone(final(entries)@)
                    && tup.3 == sp_entries_allsome(final(entries)@) && tup.4
                    == sp_entries_badname(final(entries)@)))
                &&& (r matches Err(e) ==> s == Err::<(int, int, bool, bool, bool), ParseError>(e))
            }),
        decreases old(self).remaining(), 9int,
    {
        match self.peek() {
            Some((_, Tok::RightBracket, _)) => Ok(()),
            Some((_, Tok::Number(v), _)) => {
                let lit = NumLit { text: self.view_text(v) };
                self.bump();
                proof {
                    lemma_entries_push(entries@, (Option::None, lit));
                }
                entries.push((None, lit));
                match self.peek() {
                    Some((_, Tok::Comma, _)) => {
                        self.bump();
                        self.parse_crop_entries(entries)
                    },
                    _ => Ok(()),
                }
            },
            Some((_, Tok::Id(v), _)) => {
                let name = self.view_text(v);
                self.bump();
                if let Err(e) = self.expect(Tok::Colon) {
                    return Err(e);
                }
                let lit = match self.peek() {
                    Some((_, Tok::Number(nv), _)) => {
                        let lit = NumLit { text: self.view_text(nv) };
                        self.bump();
                        lit
                    },
                    _ => {
                        return self.err_here();
                    },
                };
                proof {
                    lemma_entries_push(entries@, (Option::Some(name), lit));
                }
                entries.push((Some(name), lit));
                match self.peek() {
                    Some((_, Tok::Comma, _)) => {
                        self.bump();
                        self.parse_crop_entries(entries)
                    },
                    _ => Ok(()),
                }
            },
            _ => self.err_here(),
        }
    }

    /// The bracketed crop window after an image value.
    #[verifier::rlimit(100)]
    #[verifier::spinoff_prover]
    fn parse_img_crop(&mut self, ident: String) -> (r: Result<StyleValue, ParseError>)
        requires
            old(self).wf(),
        ensures
            final(self).wf(),
            final(self).tk == old(self).tk,
            final(self).toks == old(self).toks,
            final(self).remaining() <= old(self).remaining(),
            r is Ok ==> final(self).remaining() < old(self).remaining(),
            ({
                let s = sp_img_crop(
                    old(self).tk.text_model(),
                    old(self).toks@,
                    old(self).idx as int,
                );
                &&& (r is Ok ==> (s matches Ok(j) && final(self).idx as int == j))
                &&& (r matches Err(e) ==> s == Err::<int, ParseError>(e))
            }),
        decreases old(self).remaining(), 10int,
    {
        let (lb, _, _) = match self.expect(Tok::LeftBracket) {
            Ok(t) => t,
            Err(e) => {
                return Err(e);
            },
        };
        let mut entries: Vec<(Option<String>, NumLit)> = Vec::new();
        proof {
            assert(sp_entries_allnone(entries@));
            assert(sp_entries_allsome(entries@));
            assert(!sp_entries_badname(entries@));
        }
        if let Err(e) = self.parse_crop_entries(&mut entries) {
            return Err(e);
        }
        if let Err(e) = self.expect(Tok::RightBracket) {
            return Err(e);
        }
        if !is_valid_img_range(&entries) {
            return Err(
                ParseError::User { error: Error { location: lb, code: ErrorCode::InvalidRange } },
            );
        }
        if Self::entries_badname(&entries) {
            return Err(
                ParseError::User { error: Error { location: lb, code: ErrorCode::InvalidRange } },
            );
        }
        let ghost done = *self;
        let mut view_x: Option<NumLit> = None;
        let mut view_y: Option<NumLit> = None;
        let mut view_w: Option<NumLit> = None;
        let mut view_h: Option<NumLit> = None;
        let mut i: usize = 0;
        while i < entries.len()
            invariant
                i <= entries@.len(),
                *self == done,
                !sp_entries_badname(entries@),
            decreases entries@.len() - i,
        {
            let lit = entries[i].1.clone();
            let slot = match &entries[i].0 {
                Some(name) => {
                    match Self::crop_slot(name) {
                        Some(k) => k as usize,
                        None => {
                            // Refused already by the bad-name scan.
                            proof {
                                assert(sp_entries_badname(entries@));
                            }
                            return Err(
                                ParseError::User {
                                    error: Error { location: lb, code: ErrorCode::InvalidRange },
                                },
                            );
                        },
                    }
                },
                None => i,
            };
            if slot == 0 {
                view_x = Some(lit);
            } else if slot == 1 {
                view_y = Some(lit);
            } else if slot == 2 {
                view_w = Some(lit);
            } else {
                view_h = Some(lit);
            }
            i = i + 1;
        }
        Ok(StyleValue::Img { ident, view_x, view_y, view_w, view_h })
    }

    /// One style value: a hex color, a keyword literal, an image with an
    /// optional crop window, or an expression with an optional unit.
    fn parse_style_value(&mut self) -> (r: Result<StyleValue, ParseError>)
        requires
            old(self).wf(),
        ensures
            final(self).wf(),
            final(self).tk == old(self).tk,
            final(self).toks == old(self).toks,
            final(self).remaining() <= old(self).remaining(),
            r is Ok ==> final(self).remaining() < old(self).remaining(),
            ({
                let s = sp_style_value(
                    old(self).tk.text_model(),
                    old(self).toks@,
                    old(self).idx as int,
                );
                &&& (r is Ok ==> (s matches Ok(j) && final(self).idx as int == j))
                &&& (r matches Err(e) ==> s == Err::<int, ParseError>(e))
            }),
        decreases old(self).remaining(), 11int,
    {
        match self.peek() {
            Some((l, Tok::Hex(v), _)) => {
                if v.finish_at == v.begin_at {
                    return Err(ParseError::UnrecognizedToken { location: l });
                }
                let text = self.view_text(v);
                self.bump();
                Ok(StyleValue::Hex(text))
            },
            Some((_, Tok::StringLiteral(v), _)) => {
                let text = self.view_text(v);
                self.bump();
                Ok(StyleValue::Keyword(text))
            },
            Some((l, Tok::Id(v), rr)) => {
                let is_dollar = v.begin_at < v.finish_at && self.tk.char_at(v.begin_at) == '$';
                proof {
                    if v.begin_at < v.finish_at {
                        assert(txt(self.tk.text_model(), v).len() > 0);
                        assert(txt(self.tk.text_model(), v)[0] == self.tk.text_model()[v.begin_at as int]);
                    }
                }
                let next_is_bracket = match self.peek2() {
                    Some((_, Tok::LeftBracket, _)) => true,
                    _ => false,
                };
                if is_dollar || next_is_bracket {
                    let ident = self.view_text(v);
                    self.bump();
                    match self.peek() {
                        Some((_, Tok::LeftBracket, _)) => self.parse_img_crop(ident),
                        _ => Ok(
                            StyleValue::Img {
                                ident,
                                view_x: None,
                                view_y: None,
                                view_w: None,
                                view_h: None,
                            },
                        ),
                    }
                } else {
                    self.parse_style_expr_value()
                }
            },
            _ => self.parse_style_expr_value(),
        }
    }

    /// An expression value, with a trailing unit when one follows; only
    /// the pixel unit exists.
    fn parse_style_expr_value(&mut self) -> (r: Result<StyleValue, ParseError>)
        requires
            old(self).wf(),
        ensures
            final(self).wf(),
            final(self).tk == old(self).tk,
            final(self).toks == old(self).toks,
            final(self).remaining() <= old(self).remaining(),
            r is Ok ==> final(self).remaining() < old(self).remaining(),
            ({
                let s = sp_style_expr_value(
                    old(self).tk.text_model(),
                    old(self).toks@,
                    old(self).idx as int,
                );
                &&& (r is Ok ==> (s matches Ok(j) && final(self).idx as int == j))
                &&& (r matches Err(e) ==> s == Err::<int, ParseError>(e))
            }),
        decreases old(self).remaining(), 10int,
    {
        let e = match self.parse_expr() {
            Ok(e) => e,
            Err(e) => {
                return Err(e);
            },
        };
        match self.peek() {
            Some((l, Tok::Id(v), _)) => {
                let unit = self.view_text(v);
                if Self::is_word(&unit, "px") {
                    self.bump();
                    Ok(StyleValue::Length(Box::new(e), Unit::Px))
                } else {
                    Err(
                        ParseError::User {
                            error: Error { location: l, code: ErrorCode::InvalidUnit },
                        },
                    )
                }
            },
            _ => Ok(StyleValue::Unspecified(Box::new(e))),
        }
    }

    /// The entries of a class body or of an anonymous class, up to (not
    /// consuming) the closing brace.
    #[verifier::rlimit(100)]
    #[verifier::spinoff_prover]
    fn parse_style_entries(&mut self) -> (r: Result<Vec<RawPropertyOrInclude>, ParseError>)
        requires
            old(self).wf(),
        ensures
            final(self).wf(),
            final(self).tk == old(self).tk,
            final(self).toks == old(self).toks,
            final(self).remaining() <= old(self).remaining(),
            ({
                let s = sp_style_entries(
                    old(self).tk.text_model(),
                    old(self).toks@,
                    old(self).idx as int,
                );
                &&& (r is Ok ==> (s matches Ok(j) && final(self).idx as int == j))
                &&& (r matches Err(e) ==> s == Err::<int, ParseError>(e))
            }),
        decreases old(self).remaining(), 12int,
    {
        let mut entries: Vec<RawPropertyOrInclude> = Vec::new();
        loop
            invariant
                self.wf(),
                self.tk == old(self).tk,
                self.toks == old(self).toks,
                self.remaining() <= old(self).remaining(),
                sp_style_entries(
                    old(self).tk.text_model(),
                    old(self).toks@,
                    old(self).idx as int,
                ) == sp_style_entries(
                    old(self).tk.text_model(),
                    self.toks@,
                    self.idx as int,
                ),
            decreases self.remaining(),
        {
            match self.peek() {
                Some((_, Tok::RightBrace, _)) => {
                    return Ok(entries);
                },
                Some((_, Tok::DotId(_), _)) => {
                    let name = match self.expect_dot_ident() {
                        Ok(id) => id,
                        Err(e) => {
                            return Err(e);
                        },
                    };
                    let mut arguments: Vec<Ident> = Vec::new();
                    match self.peek() {
                        Some((_, Tok::LeftParen, _)) => {
                            self.bump();
                            arguments = match self.parse_id_list(Tok::RightParen) {
                                Ok(ids) => ids,
                                Err(e) => {
                                    return Err(e);
                                },
                            };
                            if let Err(e) = self.expect(Tok::RightParen) {
                                return Err(e);
                            }
                        },
                        _ => {},
                    }
                    let cond = match self.parse_opt_cond() {
                        Ok(c) => c,
                        Err(e) => {
                            return Err(e);
                        },
                    };
                    if let Err(e) = self.expect(Tok::Semi) {
                        return Err(e);
                    }
                    entries.push(
                        RawPropertyOrInclude::Include(
                            IncludeCond { incl: Include { name, arguments }, cond },
                        ),
                    );
                },
                Some((_, Tok::Id(v), _)) => {
                    let prop = self.view_text(v);
                    self.bump();
                    if let Err(e) = self.expect(Tok::Colon) {
                        return Err(e);
                    }
                    let sv = match self.parse_style_value() {
                        Ok(sv) => sv,
                        Err(e) => {
                            return Err(e);
                        },
                    };
                    let cond = match self.parse_opt_cond() {
                        Ok(c) => c,
                        Err(e) => {
                            return Err(e);
                        },
                    };
                    if let Err(e) = self.expect(Tok::Semi) {
                        return Err(e);
                    }
                    entries.push(
                        RawPropertyOrInclude::RawProperty(prop, StyleValueCond { prop: sv, cond }),
                    );
                },
                _ => {
                    return self.err_here();
                },
            }
        }
    }

    /// The condition after a value, when one follows.
    fn parse_opt_cond(&mut self) -> (r: Result<Option<Box<Expr>>, ParseError>)
        requires
            old(self).wf(),
        ensures
            final(self).wf(),
            final(self).tk == old(self).tk,
            final(self).toks == old(self).toks,
            final(self).remaining() <= old(self).remaining(),
            ({
                let s = sp_opt_cond(old(self).tk.text_model(), old(self).toks@, old(self).idx as int);
                &&& (r is Ok ==> (s matches Ok(j) && final(self).idx as int == j))
                &&& (r matches Err(e) ==> s == Err::<int, ParseError>(e))
            }),
        decreases old(self).remaining(), 11int,
    {
        match self.peek() {
            Some((_, Tok::If, _)) => {
                self.bump();
                match self.parse_expr() {
                    Ok(e) => Ok(Some(Box::new(e))),
                    Err(e) => Err(e),
                }
            },
            _ => Ok(None),
        }
    }
}

impl<'a, B: ASTBuilder> Parser<'a, B> {
    fn at_node_start(&self) -> (r: bool)
        requires
            self.wf(),
        ensures
            r == sp_node_start(self.toks@, self.idx as int),
    {
        match self.peek() {
            Some((_, Tok::TextNode(_), _)) => true,
            Some((_, Tok::LeftBrace, _)) => true,
            Some((_, Tok::LessThan, _)) => true,
            _ => false,
        }
    }

    #[verifier::rlimit(100)]
    #[verifier::spinoff_prover]
    fn parse_node(&mut self) -> (r: Result<Node, ParseError>)
        requires
            old(self).wf(),
        ensures
            final(self).wf(),
            final(self).tk == old(self).tk,
            final(self).toks == old(self).toks,
            final(self).remaining() <= old(self).remaining(),
            r is Ok ==> final(self).remaining() < old(self).remaining(),
            ({
                let s = sp_node(old(self).tk.text_model(), old(self).toks@, old(self).idx as int);
                &&& (r is Ok ==> (s matches Ok(j) && final(self).idx as int == j))
                &&& (r matches Err(e) ==> s == Err::<int, ParseError>(e))
            }),
        decreases old(self).remaining(), 14int,
    {
        match self.peek() {
            Some((l, Tok::TextNode(v), rr)) => {
                let content = self.view_text(v);
                self.bump();
                Ok(self.builder.node_txt(Span(l, rr), content))
            },
            Some((l, Tok::LeftBrace, _)) => {
                self.bump();
                if let Err(e) = self.expect(Tok::LeftBrace) {
                    return Err(e);
                }
                let pe = match self.parse_path_expr() {
                    Ok(pe) => pe,
                    Err(e) => {
                        return Err(e);
                    },
                };
                if let Err(e) = self.expect(Tok::RightBrace) {
                    return Err(e);
                }
                let (_, _, r2) = match self.expect(Tok::RightBrace) {
                    Ok(t) => t,
                    Err(e) => {
                        return Err(e);
                    },
                };
                Ok(self.builder.node_binding(Span(l, r2), pe))
            },
            Some((_, Tok::LessThan, _)) => self.parse_tag(),
            _ => self.err_here(),
        }
    }

    /// The attributes of a tag, up to (not consuming) the closing
    /// bracket form.
    #[verifier::rlimit(100)]
    #[verifier::spinoff_prover]
    fn parse_attrs(
        &mut self,
        class: &mut Option<AnonymousClassOrIdent>,
        arguments: &mut Vec<(Ident, ObjectValue)>,
        events: &mut Vec<(Ident, ())>,
    ) -> (r: Result<(), ParseError>)
        requires
            old(self).wf(),
        ensures
            final(self).wf(),
            final(self).tk == old(self).tk,
            final(self).toks == old(self).toks,
            final(self).remaining() <= old(self).remaining(),
            ({
                let s = sp_attrs(old(self).tk.text_model(), old(self).toks@, old(self).idx as int);
                &&& (r is Ok ==> (s matches Ok(j) && final(self).idx as int == j))
                &&& (r matches Err(e) ==> s == Err::<int, ParseError>(e))
            }),
        decreases old(self).remaining(), 12int,
    {
        match self.peek() {
            Some((_, Tok::SlashGreaterThan, _)) => Ok(()),
            Some((_, Tok::GreaterThan, _)) => Ok(()),
            Some((al, Tok::Id(av), ar)) => {
                let attr = self.view_text(av);
                self.bump();
                if let Err(e) = self.expect(Tok::Equals) {
                    return Err(e);
                }
                if !Self::is_word(&attr, "class") {
                    return Err(ParseError::UnrecognizedToken { location: al });
                }
                match self.peek() {
                    Some((_, Tok::Id(cv), _)) => {
                        let cname = self.view_text(cv);
                        self.bump();
                        *class = Some(AnonymousClassOrIdent::Ident(cname));
                        self.parse_attrs(class, arguments, events)
                    },
                    Some((_, Tok::LeftBrace, _)) => {
                        self.bump();
                        let props = match self.parse_style_entries() {
                            Ok(p) => p,
                            Err(e) => {
                                return Err(e);
                            },
                        };
                        if let Err(e) = self.expect(Tok::RightBrace) {
                            return Err(e);
                        }
                        *class = Some(
                            AnonymousClassOrIdent::AnCls(AnonymousClass { properties: props }),
                        );
                        self.parse_attrs(class, arguments, events)
                    },
                    _ => self.err_here(),
                }
            },
            Some((_, Tok::LeftBracket, _)) => {
                self.bump();
                let arg = match self.expect_ident() {
                    Ok(id) => id,
                    Err(e) => {
                        return Err(e);
                    },
                };
                if let Err(e) = self.expect(Tok::RightBracket) {
                    return Err(e);
                }
                if let Err(e) = self.expect(Tok::Equals) {
                    return Err(e);
                }
                if let Err(e) = self.expect(Tok::LeftBrace) {
                    return Err(e);
                }
                let val = match self.parse_object_value() {
                    Ok(v) => v,
                    Err(e) => {
                        return Err(e);
                    },
                };
                if let Err(e) = self.expect(Tok::RightBrace) {
                    return Err(e);
                }
                arguments.push((arg, val));
                self.parse_attrs(class, arguments, events)
            },
            Some((_, Tok::LeftParen, _)) => {
                self.bump();
                let ev = match self.expect_ident() {
                    Ok(id) => id,
                    Err(e) => {
                        return Err(e);
                    },
                };
                if let Err(e) = self.expect(Tok::RightParen) {
                    return Err(e);
                }
                if let Err(e) = self.expect(Tok::Equals) {
                    return Err(e);
                }
                if let Err(e) = self.expect(Tok::LeftBrace) {
                    return Err(e);
                }
                if let Err(e) = self.parse_expr() {
                    return Err(e);
                }
                if let Err(e) = self.expect(Tok::RightBrace) {
                    return Err(e);
                }
                events.push((ev, ()));
                self.parse_attrs(class, arguments, events)
            },
            _ => self.err_here(),
        }
    }

    /// The children of an open tag, up to the next token that cannot
    /// start a node.
    fn parse_children(&mut self, children: &mut Vec<Node>) -> (r: Result<(), ParseError>)
        requires
            old(self).wf(),
        ensures
            final(self).wf(),
            final(self).tk == old(self).tk,
            final(self).toks == old(self).toks,
            final(self).remaining() <= old(self).remaining(),
            ({
                let s = sp_children(
                    old(self).tk.text_model(),
                    old(self).toks@,
                    old(self).idx as int,
                );
                &&& (r is Ok ==> (s matches Ok(j) && final(self).idx as int == j))
                &&& (r matches Err(e) ==> s == Err::<int, ParseError>(e))
            }),
        decreases old(self).remaining(), 15int,
    {
        if !self.at_node_start() {
            return Ok(());
        }
        let child = match self.parse_node() {
            Ok(n) => n,
            Err(e) => {
                return Err(e);
            },
        };
        children.push(child);
        self.parse_children(children)
    }

    #[verifier::rlimit(100)]
    #[verifier::spinoff_prover]
    fn parse_tag(&mut self) -> (r: Result<Node, ParseError>)
        requires
            old(self).wf(),
        ensures
            final(self).wf(),
            final(self).tk == old(self).tk,
            final(self).toks == old(self).toks,
            final(self).remaining() <= old(self).remaining(),
            r is Ok ==> final(self).remaining() < old(self).remaining(),
            ({
                let s = sp_tag(old(self).tk.text_model(), old(self).toks@, old(self).idx as int);
                &&& (r is Ok ==> (s matches Ok(j) && final(self).idx as int == j))
                &&& (r matches Err(e) ==> s == Err::<int, ParseError>(e))
            }),
        decreases old(self).remaining(), 13int,
    {
        proof {
            reveal(sp_tag);
        }
        let (l0, _, _) = match self.expect(Tok::LessThan) {
            Ok(t) => t,
            Err(e) => {
                return Err(e);
            },
        };
        let (nl, nv, nr) = match self.peek() {
            Some((nl, Tok::Id(nv), nr)) => (nl, nv, nr),
            _ => {
                return self.err_here();
            },
        };
        let name = self.view_text(nv);
        self.bump();
        // A tag written `<name:kind />` is a placement query.
        match self.peek() {
            Some((_, Tok::Colon, _)) => {
                self.bump();
                let (kl, kv, _) = match self.peek() {
                    Some((kl, Tok::Id(kv), kr)) => (kl, kv, kr),
                    _ => {
                        return self.err_here();
                    },
                };
                if !Self::is_word(&name, "select") {
                    return Err(
                        ParseError::User {
                            error: Error { location: nl, code: ErrorCode::InvalidSelect },
                        },
                    );
                }
                let kind = self.view_text(kv);
                if !Self::is_word(&kind, "children") {
                    return Err(
                        ParseError::User {
                            error: Error { location: kl, code: ErrorCode::InvalidQuery },
                        },
                    );
                }
                self.bump();
                let (_, _, rend) = match self.expect(Tok::SlashGreaterThan) {
                    Ok(t) => t,
                    Err(e) => {
                        return Err(e);
                    },
                };
                return Ok(
                    Node {
                        span: Span(l0, rend),
                        kind: NodeKind::Query { kind: QueryKind::Children },
                        children: Vec::new(),
                    },
                );
            },
            _ => {},
        }
        let mut class: Option<AnonymousClassOrIdent> = None;
        let mut arguments: Vec<(Ident, ObjectValue)> = Vec::new();
        let mut events: Vec<(Ident, ())> = Vec::new();
        if let Err(e) = self.parse_attrs(&mut class, &mut arguments, &mut events) {
            return Err(e);
        }
        match self.peek() {
            Some((_, Tok::SlashGreaterThan, _)) => {
                let (_, _, rend) = match self.expect(Tok::SlashGreaterThan) {
                    Ok(t) => t,
                    Err(e) => {
                        return Err(e);
                    },
                };
                Ok(
                    Node {
                        span: Span(l0, rend),
                        kind: NodeKind::Tag { name, class, arguments, events },
                        children: Vec::new(),
                    },
                )
            },
            _ => {
                if let Err(e) = self.expect(Tok::GreaterThan) {
                    return Err(e);
                }
                let mut children: Vec<Node> = Vec::new();
                if let Err(e) = self.parse_children(&mut children) {
                    return Err(e);
                }
                if let Err(e) = self.expect(Tok::LessThanSlash) {
                    return Err(e);
                }
                let (cl, cv, _) = match self.peek() {
                    Some((cl, Tok::Id(cv), cr)) => (cl, cv, cr),
                    _ => {
                        return self.err_here();
                    },
                };
                let close = self.view_text(cv);
                self.bump();
                let (_, _, rend) = match self.expect(Tok::GreaterThan) {
                    Ok(t) => t,
                    Err(e) => {
                        return Err(e);
                    },
                };
                // The closing name must match the innermost open tag.
                if !Self::names_eq(&name, &close) {
                    return Err(
                        ParseError::User {
                            error: Error { location: cl, code: ErrorCode::UnmatchingTag },
                        },
                    );
                }
                Ok(
                    Node {
                        span: Span(l0, rend),
                        kind: NodeKind::Tag { name, class, arguments, events },
                        children,
                    },
                )
            },
        }
    }

    /// Further body nodes, up to the next token that cannot start one.
    fn parse_body_nodes(&mut self, children: &mut Vec<Node>) -> (r: Result<(), ParseError>)
        requires
            old(self).wf(),
        ensures
            final(self).wf(),
            final(self).tk == old(self).tk,
            final(self).toks == old(self).toks,
            final(self).remaining() <= old(self).remaining(),
            ({
                let s = sp_body_rest(
                    old(self).tk.text_model(),
                    old(self).toks@,
                    old(self).idx as int,
                );
                &&& (r is Ok ==> (s matches Ok(j) && final(self).idx as int == j))
                &&& (r matches Err(e) ==> s == Err::<int, ParseError>(e))
            }),
        decreases old(self).remaining(), 16int,
    {
        proof {
            reveal_with_fuel(sp_body_rest, 1);
        }
        if !self.at_node_start() {
            return Ok(());
        }
        let child = match self.parse_node() {
            Ok(n) => n,
            Err(e) => {
                return Err(e);
            },
        };
        children.push(child);
        self.parse_body_nodes(children)
    }

    /// A component, template or view body: one or more nodes, aggregated.
    #[verifier::rlimit(100)]
    #[verifier::spinoff_prover]
    fn parse_body(&mut self) -> (r: Result<Node, ParseError>)
        requires
            old(self).wf(),
        ensures
            final(self).wf(),
            final(self).tk == old(self).tk,
            final(self).toks == old(self).toks,
            final(self).remaining() <= old(self).remaining(),
            r is Ok ==> final(self).remaining() < old(self).remaining(),
            ({
                let s = sp_body(old(self).tk.text_model(), old(self).toks@, old(self).idx as int);
                &&& (r is Ok ==> (s matches Ok(j) && final(self).idx as int == j))
                &&& (r matches Err(e) ==> s == Err::<int, ParseError>(e))
            }),
        decreases old(self).remaining(), 15int,
    {
        let (l0, _, _) = match self.peek() {
            Some(t) => t,
            None => {
                return Err(ParseError::UnexpectedEnd);
            },
        };
        if !self.at_node_start() {
            proof {
                assert(sp_body(old(self).tk.text_model(), old(self).toks@, old(self).idx as int)
                    == Err::<int, ParseError>(sp_err(old(self).toks@, old(self).idx as int)));
            }
            return self.err_here();
        }
        let first = match self.parse_node() {
            Ok(n) => n,
            Err(e) => {
                return Err(e);
            },
        };
        let mut children: Vec<Node> = Vec::new();
        children.push(first);
        let mut rend = match self.peek() {
            Some((l, _, _)) => l,
            None => l0,
        };
        if let Err(e) = self.parse_body_nodes(&mut children) {
            return Err(e);
        }
        proof {
            assert(sp_body(old(self).tk.text_model(), old(self).toks@, old(self).idx as int)
                matches Ok(j) && j == self.idx as int);
        }
        rend = match self.peek() {
            Some((l, _, _)) => l,
            None => rend,
        };
        Ok(self.builder.node_agg(Span(l0, rend), children))
    }

    fn parse_component(&mut self, exported: bool) -> (r: Result<Item, ParseError>)
        requires
            old(self).wf(),
        ensures
            final(self).wf(),
            final(self).tk == old(self).tk,
            final(self).toks == old(self).toks,
            final(self).remaining() <= old(self).remaining(),
            r is Ok ==> final(self).remaining() < old(self).remaining(),
            ({
                let s = sp_component(old(self).tk.text_model(), old(self).toks@, old(self).idx as int);
                &&& (r is Ok ==> (s matches Ok(j) && final(self).idx as int == j))
                &&& (r matches Err(e) ==> s == Err::<int, ParseError>(e))
            }),
        decreases old(self).remaining(), 16int,
    {
        match self.peek() {
            Some((_, Tok::Component, _)) => {
                self.bump();
            },
            Some((_, Tok::Template, _)) => {
                self.bump();
            },
            _ => {
                return self.err_here();
            },
        }
        let name = match self.expect_ident() {
            Ok(id) => id,
            Err(e) => {
                return Err(e);
            },
        };
        let mut arguments: Vec<Ident> = Vec::new();
        match self.peek() {
            Some((_, Tok::LeftBracket, _)) => {
                self.bump();
                arguments = match self.parse_id_list(Tok::RightBracket) {
                    Ok(ids) => ids,
                    Err(e) => {
                        return Err(e);
                    },
                };
                if let Err(e) = self.expect(Tok::RightBracket) {
                    return Err(e);
                }
            },
            _ => {},
        }
        let mut events: Vec<Ident> = Vec::new();
        match self.peek() {
            Some((_, Tok::Arrow, _)) => {
                self.bump();
                match self.peek() {
                    Some((_, Tok::LeftParen, _)) => {
                        self.bump();
                        events = match self.parse_id_list(Tok::RightParen) {
                            Ok(ids) => ids,
                            Err(e) => {
                                return Err(e);
                            },
                        };
                        if let Err(e) = self.expect(Tok::RightParen) {
                            return Err(e);
                        }
                    },
                    _ => {
                        let ev = match self.expect_ident() {
                            Ok(id) => id,
                            Err(e) => {
                                return Err(e);
                            },
                        };
                        events.push(ev);
                    },
                }
            },
            _ => {},
        }
        if let Err(e) = self.expect(Tok::Equals) {
            return Err(e);
        }
        let body = match self.parse_body() {
            Ok(n) => n,
            Err(e) => {
                return Err(e);
            },
        };
        if let Err(e) = self.expect(Tok::Semi) {
            return Err(e);
        }
        Ok(
            Item::Component(
                Component {
                    exported,
                    name,
                    arguments,
                    events,
                    body: ComponentBody::SingleNode(body),
                },
            ),
        )
    }

    fn parse_class(&mut self) -> (r: Result<Item, ParseError>)
        requires
            old(self).wf(),
        ensures
            final(self).wf(),
            final(self).tk == old(self).tk,
            final(self).toks == old(self).toks,
            final(self).remaining() <= old(self).remaining(),
            r is Ok ==> final(self).remaining() < old(self).remaining(),
            ({
                let s = sp_class(old(self).tk.text_model(), old(self).toks@, old(self).idx as int);
                &&& (r is Ok ==> (s matches Ok(j) && final(self).idx as int == j))
                &&& (r matches Err(e) ==> s == Err::<int, ParseError>(e))
            }),
        decreases old(self).remaining(), 16int,
    {
        self.parse_class_exported(false)
    }

    fn parse_class_exported(&mut self, exported: bool) -> (r: Result<Item, ParseError>)
        requires
            old(self).wf(),
        ensures
            final(self).wf(),
            final(self).tk == old(self).tk,
            final(self).toks == old(self).toks,
            final(self).remaining() <= old(self).remaining(),
            r is Ok ==> final(self).remaining() < old(self).remaining(),
            ({
                let s = sp_class(old(self).tk.text_model(), old(self).toks@, old(self).idx as int);
                &&& (r is Ok ==> (s matches Ok(j) && final(self).idx as int == j))
                &&& (r matches Err(e) ==> s == Err::<int, ParseError>(e))
            }),
        decreases old(self).remaining(), 15int,
    {
        let name = match self.expect_dot_ident() {
            Ok(id) => id,
            Err(e) => {
                return Err(e);
            },
        };
        let mut arguments: Vec<Ident> = Vec::new();
        match self.peek() {
            Some((_, Tok::LeftParen, _)) => {
                self.bump();
                arguments = match self.parse_id_list(Tok::RightParen) {
                    Ok(ids) => ids,
                    Err(e) => {
                        return Err(e);
                    },
                };
                if let Err(e) = self.expect(Tok::RightParen) {
                    return Err(e);
                }
            },
            _ => {},
        }
        if let Err(e) = self.expect(Tok::LeftBrace) {
            return Err(e);
        }
        let properties = match self.parse_style_entries() {
            Ok(p) => p,
            Err(e) => {
                return Err(e);
            },
        };
        if let Err(e) = self.expect(Tok::RightBrace) {
            return Err(e);
        }
        Ok(Item::Class(Class { exported, name, arguments, properties }))
    }

    fn parse_datatype(&mut self, exported: bool) -> (r: Result<Item, ParseError>)
        requires
            old(self).wf(),
            old(self).remaining() > 0,
        ensures
            final(self).wf(),
            final(self).tk == old(self).tk,
            final(self).toks == old(self).toks,
            final(self).remaining() <= old(self).remaining(),
            r is Ok ==> final(self).remaining() < old(self).remaining(),
            ({
                let s = sp_datatype(old(self).tk.text_model(), old(self).toks@, old(self).idx as int);
                &&& (r is Ok ==> (s matches Ok(j) && final(self).idx as int == j))
                &&& (r matches Err(e) ==> s == Err::<int, ParseError>(e))
            }),
        decreases old(self).remaining(), 15int,
    {
        // The caller saw the introducing word; consume it.
        self.bump();
        let name = match self.expect_ident() {
            Ok(id) => id,
            Err(e) => {
                return Err(e);
            },
        };
        let mut arguments: Vec<Ident> = Vec::new();
        match self.peek() {
            Some((_, Tok::LeftParen, _)) => {
                self.bump();
                arguments = match self.parse_id_list(Tok::RightParen) {
                    Ok(ids) => ids,
                    Err(e) => {
                        return Err(e);
                    },
                };
                if let Err(e) = self.expect(Tok::RightParen) {
                    return Err(e);
                }
            },
            _ => {},
        }
        if let Err(e) = self.expect(Tok::Equals) {
            return Err(e);
        }
        let def = match self.peek() {
            Some((_, Tok::StringLiteral(v), _)) => {
                let text = self.view_text(v);
                self.bump();
                DataTypeDef::StrLit(text)
            },
            Some((_, Tok::LeftBrace, _)) => {
                let obj = match self.parse_object_value() {
                    Ok(v) => v,
                    Err(e) => {
                        return Err(e);
                    },
                };
                DataTypeDef::Object(obj)
            },
            Some((l, Tok::Id(v), rr)) => {
                let head = self.view_text(v);
                if Self::is_word(&head, "new") {
                    self.bump();
                    let alias = match self.expect_ident() {
                        Ok(id) => id,
                        Err(e) => {
                            return Err(e);
                        },
                    };
                    DataTypeDef::NewAlias(alias)
                } else {
                    let alias = self.ident_of(l, v, rr);
                    self.bump();
                    DataTypeDef::Alias(alias)
                }
            },
            _ => {
                return self.err_here();
            },
        };
        if let Err(e) = self.expect(Tok::Semi) {
            return Err(e);
        }
        Ok(Item::DataType(DataType { exported, name, arguments, def }))
    }

    fn parse_let(&mut self, exported: bool) -> (r: Result<Item, ParseError>)
        requires
            old(self).wf(),
            old(self).remaining() > 0,
        ensures
            final(self).wf(),
            final(self).tk == old(self).tk,
            final(self).toks == old(self).toks,
            final(self).remaining() <= old(self).remaining(),
            r is Ok ==> final(self).remaining() < old(self).remaining(),
            ({
                let s = sp_let(old(self).tk.text_model(), old(self).toks@, old(self).idx as int);
                &&& (r is Ok ==> (s matches Ok(j) && final(self).idx as int == j))
                &&& (r matches Err(e) ==> s == Err::<int, ParseError>(e))
            }),
        decreases old(self).remaining(), 15int,
    {
        // The caller saw the introducing word; consume it.
        self.bump();
        let name = match self.expect_ident() {
            Ok(id) => id,
            Err(e) => {
                return Err(e);
            },
        };
        if let Err(e) = self.expect(Tok::Equals) {
            return Err(e);
        }
        let object = match self.parse_object_value() {
            Ok(v) => v,
            Err(e) => {
                return Err(e);
            },
        };
        if let Err(e) = self.expect(Tok::Semi) {
            return Err(e);
        }
        Ok(Item::Constant(ConstValue { exported, name, object }))
    }

    fn parse_item(&mut self) -> (r: Result<Item, ParseError>)
        requires
            old(self).wf(),
        ensures
            final(self).wf(),
            final(self).tk == old(self).tk,
            final(self).toks == old(self).toks,
            final(self).remaining() <= old(self).remaining(),
            r is Ok ==> final(self).remaining() < old(self).remaining(),
            ({
                let s = sp_item(old(self).tk.text_model(), old(self).toks@, old(self).idx as int);
                &&& (r is Ok ==> (s matches Ok(j) && final(self).idx as int == j))
                &&& (r matches Err(e) ==> s == Err::<int, ParseError>(e))
            }),
        decreases old(self).remaining(), 17int,
    {
        match self.peek() {
            Some((_, Tok::Export, _)) => {
                self.bump();
                match self.peek() {
                    Some((_, Tok::Component, _)) | Some((_, Tok::Template, _)) => {
                        self.parse_component(true)
                    },
                    Some((_, Tok::DotId(_), _)) => self.parse_class_exported(true),
                    Some((_, Tok::Id(v), _)) => {
                        let head = self.view_text(v);
                        if Self::is_word(&head, "datatype") {
                            self.parse_datatype(true)
                        } else if Self::is_word(&head, "let") {
                            self.parse_let(true)
                        } else {
                            self.err_here()
                        }
                    },
                    _ => self.err_here(),
                }
            },
            Some((_, Tok::Component, _)) | Some((_, Tok::Template, _)) => {
                self.parse_component(false)
            },
            Some((_, Tok::View, _)) => {
                self.bump();
                let name = match self.expect_ident() {
                    Ok(id) => id,
                    Err(e) => {
                        return Err(e);
                    },
                };
                if let Err(e) = self.expect(Tok::Equals) {
                    return Err(e);
                }
                let node = match self.parse_body() {
                    Ok(n) => n,
                    Err(e) => {
                        return Err(e);
                    },
                };
                if let Err(e) = self.expect(Tok::Semi) {
                    return Err(e);
                }
                Ok(Item::View(ViewItem { name, node }))
            },
            Some((_, Tok::DotId(_), _)) => self.parse_class(),
            Some((_, Tok::Id(v), _)) => {
                let head = self.view_text(v);
                if Self::is_word(&head, "datatype") {
                    self.parse_datatype(false)
                } else if Self::is_word(&head, "let") {
                    self.parse_let(false)
                } else {
                    self.err_here()
                }
            },
            _ => self.err_here(),
        }
    }

    fn parse_package_items(
        &mut self,
        imports: &mut Vec<Import>,
        items: &mut Vec<Item>,
    ) -> (r: Result<(), ParseError>)
        requires
            old(self).wf(),
        ensures
            final(self).wf(),
            final(self).tk == old(self).tk,
            final(self).toks == old(self).toks,
            old(self).remaining() <= 0 ==> (r is Ok && final(imports)@ == old(imports)@
                && final(items)@ == old(items)@),
            ({
                let s = sp_package(old(self).tk.text_model(), old(self).toks@, old(self).idx as int);
                &&& (r is Ok ==> (s matches Ok(j) && final(self).idx as int == j))
                &&& (r matches Err(e) ==> s == Err::<int, ParseError>(e))
            }),
        decreases old(self).remaining(), 18int,
    {
        match self.peek() {
            None => Ok(()),
            Some((_, Tok::Import, _)) => {
                let imp = match self.parse_import() {
                    Ok(i) => i,
                    Err(e) => {
                        return Err(e);
                    },
                };
                imports.push(imp);
                self.parse_package_items(imports, items)
            },
            Some(_) => {
                let item = match self.parse_item() {
                    Ok(i) => i,
                    Err(e) => {
                        return Err(e);
                    },
                };
                items.push(item);
                self.parse_package_items(imports, items)
            },
        }
    }

    #[verifier::rlimit(100)]
    #[verifier::spinoff_prover]
    fn parse_package(&mut self) -> (r: Result<Package, ParseError>)
        requires
            old(self).wf(),
        ensures
            final(self).wf(),
            old(self).remaining() <= 0 ==> (r matches Ok(p) && p.imports@.len() == 0
                && p.items@.len() == 0),
            ({
                let s = sp_package(old(self).tk.text_model(), old(self).toks@, old(self).idx as int);
                &&& (r is Ok ==> s is Ok)
                &&& (r matches Err(e) ==> s == Err::<int, ParseError>(e))
            }),
    {
        let mut imports: Vec<Import> = Vec::new();
        let mut items: Vec<Item> = Vec::new();
        if let Err(e) = self.parse_package_items(&mut imports, &mut items) {
            return Err(e);
        }
        Ok(Package { imports, items })
    }
}

/// Parses one source file into a package, with full spans. The outcome
/// is `spec_parse_outcome` of the input: acceptance and every error are
/// fixed by the text alone. An empty input is the empty package.
pub fn parse_grammar(input: &str) -> (r: Result<Package, ParseError>)
    requires
        input@.len() <= usize::MAX,
    ensures
        input@.len() == 0 ==> (r matches Ok(p) && p.imports@.len() == 0 && p.items@.len() == 0),
        ({
            let s = spec_parse_outcome(input@);
            &&& (r is Ok <==> s is Ok)
            &&& (r matches Err(e) ==> s == Err::<int, ParseError>(e))
        }),
{
    let builder = crate::ast::ASTFullSpan;
    parse_grammar_with_builder(&builder, input)
}

/// Parses one source file into a package with the given span policy. The
/// outcome is `spec_parse_outcome` of the input, which mentions no
/// builder: every span policy accepts the same inputs and reports the
/// same error at the same place. An empty input is the empty package.
pub fn parse_grammar_with_builder<B: ASTBuilder>(builder: &B, input: &str) -> (r: Result<
    Package,
    ParseError,
>)
    requires
        input@.len() <= usize::MAX,
    ensures
        input@.len() == 0 ==> (r matches Ok(p) && p.imports@.len() == 0 && p.items@.len() == 0),
        ({
            let s = spec_parse_outcome(input@);
            &&& (r is Ok <==> s is Ok)
            &&& (r matches Err(e) ==> s == Err::<int, ParseError>(e))
        }),
{
    let mut p = match Parser::tokenize(builder, input) {
        Ok(p) => p,
        Err(e) => {
            return Err(e);
        },
    };
    p.parse_package()
}

/// Parses a single expression; the whole input must be one expression.
/// The outcome follows the token stream and `sp_expr` alone, for every
/// builder.
pub fn parse_expression_with_builder<B: ASTBuilder>(builder: &B, input: &str) -> (r: Result<
    Expr,
    ParseError,
>)
    requires
        input@.len() <= usize::MAX,
    ensures
        ({
            let s = spec_parse_expression_outcome(input@);
            &&& (r is Ok <==> s is Ok)
            &&& (r matches Err(e) ==> s == Err::<int, ParseError>(e))
        }),
{
    let mut p = match Parser::tokenize(builder, input) {
        Ok(p) => p,
        Err(e) => {
            return Err(e);
        },
    };
    let e = match p.parse_expr() {
        Ok(e) => e,
        Err(e) => {
            return Err(e);
        },
    };
    match p.peek() {
        Some((l, _, _)) => Err(ParseError::UnrecognizedToken { location: l }),
        None => Ok(e),
    }
}

// The recognizer: a spec-level recursive descent over the token stream.
// Each function takes the position of the first token of its form and
// returns the position just after it, or the failure, exactly as the
// parser of the same name decides it; the parse functions' contracts tie
// them together, so acceptance and every error code and location are
// fixed by the token stream alone, for every builder. Where a position
// comes out of a sub-form, the recursion is guarded by the bounds the
// implementation proves (a sub-form always advances); the guard's else
// branch is unreachable.
pub open spec fn sp_err(toks: Seq<Spanned<Tok>>, i: int) -> ParseError {
    if 0 <= i < toks.len() {
        ParseError::UnrecognizedToken { location: toks[i].0 }
    } else {
        ParseError::UnexpectedEnd
    }
}

pub open spec fn sp_at(toks: Seq<Spanned<Tok>>, i: int, t: Tok) -> bool {
    0 <= i < toks.len() && toks[i].1 == t
}

pub open spec fn sp_expect(toks: Seq<Spanned<Tok>>, i: int, t: Tok) -> Result<int, ParseError> {
    if sp_at(toks, i, t) {
        Ok(i + 1)
    } else {
        Err(sp_err(toks, i))
    }
}

pub open spec fn sp_is_id(toks: Seq<Spanned<Tok>>, i: int) -> bool {
    0 <= i < toks.len() && toks[i].1 is Id
}

/// The text a token's range points at.
pub open spec fn txt(text: Seq<char>, v: StrView) -> Seq<char> {
    text.subrange(v.begin_at as int, v.finish_at as int)
}

/// A dotted name token with a nonempty name after the dot.
pub open spec fn sp_dot_ident_ok(toks: Seq<Spanned<Tok>>, i: int) -> bool {
    0 <= i < toks.len() && toks[i].1 is DotId && toks[i].1->DotId_0.finish_at as int - toks[i].1
        ->DotId_0.begin_at as int > 1
}

pub open spec fn sp_node_start(toks: Seq<Spanned<Tok>>, i: int) -> bool {
    0 <= i < toks.len() && (toks[i].1 is TextNode || toks[i].1 == Tok::LeftBrace || toks[i].1
        == Tok::LessThan)
}

pub open spec fn sp_id_list_rest(toks: Seq<Spanned<Tok>>, i: int) -> Result<int, ParseError>
    decreases toks.len() - i, 1int,
{
    if sp_is_id(toks, i) {
        if sp_at(toks, i + 1, Tok::Comma) {
            sp_id_list_rest(toks, i + 2)
        } else {
            Ok(i + 1)
        }
    } else {
        Err(sp_err(toks, i))
    }
}

pub open spec fn sp_id_list(toks: Seq<Spanned<Tok>>, i: int, close: Tok) -> Result<
    int,
    ParseError,
> {
    if sp_at(toks, i, close) {
        Ok(i)
    } else {
        sp_id_list_rest(toks, i)
    }
}

pub open spec fn sp_path_rest(toks: Seq<Spanned<Tok>>, i: int, after_guard: bool) -> Result<
    int,
    ParseError,
>
    decreases toks.len() - i, 0int,
{
    if 0 <= i < toks.len() && toks[i].1 is DotId {
        let v = toks[i].1->DotId_0;
        if v.finish_at as int - v.begin_at as int <= 1 {
            Err(ParseError::UnrecognizedToken { location: toks[i].0 })
        } else {
            sp_path_rest(toks, i + 1, false)
        }
    } else if sp_is_id(toks, i) {
        if !after_guard {
            Ok(i)
        } else {
            sp_path_rest(toks, i + 1, false)
        }
    } else if sp_at(toks, i, Tok::Question) {
        sp_path_rest(toks, i + 1, true)
    } else if sp_at(toks, i, Tok::LeftBracket) {
        if 0 <= i + 1 < toks.len() && toks[i + 1].1 is Number {
            match sp_expect(toks, i + 2, Tok::RightBracket) {
                Result::Ok(j) => sp_path_rest(toks, j, false),
                Result::Err(e) => Err(e),
            }
        } else {
            Err(sp_err(toks, i + 1))
        }
    } else {
        Ok(i)
    }
}

pub open spec fn sp_path(toks: Seq<Spanned<Tok>>, i: int) -> Result<int, ParseError> {
    if sp_is_id(toks, i) {
        sp_path_rest(toks, i + 1, false)
    } else {
        Err(sp_err(toks, i))
    }
}

pub open spec fn sp_primary(text: Seq<char>, toks: Seq<Spanned<Tok>>, i: int) -> Result<
    int,
    ParseError,
>
    decreases toks.len() - i, 3int,
{
    if 0 <= i < toks.len() && toks[i].1 is Number {
        Ok(i + 1)
    } else if 0 <= i < toks.len() && toks[i].1 is StringLiteral {
        Ok(i + 1)
    } else if sp_is_id(toks, i) {
        let t = txt(text, toks[i].1->Id_0);
        if t == "true"@ || t == "false"@ {
            Ok(i + 1)
        } else {
            sp_path(toks, i)
        }
    } else if sp_at(toks, i, Tok::LeftParen) {
        match sp_expr(text, toks, i + 1) {
            Result::Ok(j) => sp_expect(toks, j, Tok::RightParen),
            Result::Err(e) => Err(e),
        }
    } else {
        Err(sp_err(toks, i))
    }
}

pub open spec fn sp_unary(text: Seq<char>, toks: Seq<Spanned<Tok>>, i: int) -> Result<
    int,
    ParseError,
>
    decreases toks.len() - i, 4int,
{
    if sp_at(toks, i, Tok::Bang) || sp_at(toks, i, Tok::Minus) || sp_at(toks, i, Tok::Plus) {
        sp_unary(text, toks, i + 1)
    } else {
        sp_primary(text, toks, i)
    }
}

pub open spec fn sp_pow_rest(text: Seq<char>, toks: Seq<Spanned<Tok>>, i: int) -> Result<
    int,
    ParseError,
>
    decreases toks.len() - i, 0int,
{
    if sp_at(toks, i, Tok::Caret) {
        match sp_unary(text, toks, i + 1) {
            Result::Ok(j) => if i < j && j <= toks.len() {
                sp_pow_rest(text, toks, j)
            } else {
                Err(ParseError::UnexpectedEnd)
            },
            Result::Err(e) => Err(e),
        }
    } else {
        Ok(i)
    }
}

pub open spec fn sp_pow(text: Seq<char>, toks: Seq<Spanned<Tok>>, i: int) -> Result<
    int,
    ParseError,
>
    decreases toks.len() - i, 5int,
{
    match sp_unary(text, toks, i) {
        Result::Ok(j) => if i < j && j <= toks.len() {
            sp_pow_rest(text, toks, j)
        } else {
            Err(ParseError::UnexpectedEnd)
        },
        Result::Err(e) => Err(e),
    }
}

pub open spec fn sp_mul_op(t: Tok) -> bool {
    t == Tok::Star || t == Tok::Div || t == Tok::Mod
}

pub open spec fn sp_mul_rest(text: Seq<char>, toks: Seq<Spanned<Tok>>, i: int) -> Result<
    int,
    ParseError,
>
    decreases toks.len() - i, 0int,
{
    if 0 <= i < toks.len() && sp_mul_op(toks[i].1) {
        match sp_pow(text, toks, i + 1) {
            Result::Ok(j) => if i < j && j <= toks.len() {
                sp_mul_rest(text, toks, j)
            } else {
                Err(ParseError::UnexpectedEnd)
            },
            Result::Err(e) => Err(e),
        }
    } else {
        Ok(i)
    }
}

pub open spec fn sp_mul(text: Seq<char>, toks: Seq<Spanned<Tok>>, i: int) -> Result<
    int,
    ParseError,
>
    decreases toks.len() - i, 6int,
{
    match sp_pow(text, toks, i) {
        Result::Ok(j) => if i < j && j <= toks.len() {
            sp_mul_rest(text, toks, j)
        } else {
            Err(ParseError::UnexpectedEnd)
        },
        Result::Err(e) => Err(e),
    }
}

pub open spec fn sp_add_op(t: Tok) -> bool {
    t == Tok::Plus || t == Tok::Minus
}

pub open spec fn sp_add_rest(text: Seq<char>, toks: Seq<Spanned<Tok>>, i: int) -> Result<
    int,
    ParseError,
>
    decreases toks.len() - i, 0int,
{
    if 0 <= i < toks.len() && sp_add_op(toks[i].1) {
        match sp_mul(text, toks, i + 1) {
            Result::Ok(j) => if i < j && j <= toks.len() {
                sp_add_rest(text, toks, j)
            } else {
                Err(ParseError::UnexpectedEnd)
            },
            Result::Err(e) => Err(e),
        }
    } else {
        Ok(i)
    }
}

pub open spec fn sp_add(text: Seq<char>, toks: Seq<Spanned<Tok>>, i: int) -> Result<
    int,
    ParseError,
>
    decreases toks.len() - i, 7int,
{
    match sp_mul(text, toks, i) {
        Result::Ok(j) => if i < j && j <= toks.len() {
            sp_add_rest(text, toks, j)
        } else {
            Err(ParseError::UnexpectedEnd)
        },
        Result::Err(e) => Err(e),
    }
}

pub open spec fn sp_cmp_op(t: Tok) -> bool {
    t == Tok::EqualsEquals || t == Tok::BangEquals || t == Tok::LessThan || t == Tok::GreaterThan
        || t == Tok::LessThanOrEqual || t == Tok::GreaterThanOrEqual
}

pub open spec fn sp_cmp_rest(text: Seq<char>, toks: Seq<Spanned<Tok>>, i: int) -> Result<
    int,
    ParseError,
>
    decreases toks.len() - i, 0int,
{
    if 0 <= i < toks.len() && sp_cmp_op(toks[i].1) {
        match sp_add(text, toks, i + 1) {
            Result::Ok(j) => if i < j && j <= toks.len() {
                sp_cmp_rest(text, toks, j)
            } else {
                Err(ParseError::UnexpectedEnd)
            },
            Result::Err(e) => Err(e),
        }
    } else {
        Ok(i)
    }
}

pub open spec fn sp_cmp(text: Seq<char>, toks: Seq<Spanned<Tok>>, i: int) -> Result<
    int,
    ParseError,
>
    decreases toks.len() - i, 8int,
{
    match sp_add(text, toks, i) {
        Result::Ok(j) => if i < j && j <= toks.len() {
            sp_cmp_rest(text, toks, j)
        } else {
            Err(ParseError::UnexpectedEnd)
        },
        Result::Err(e) => Err(e),
    }
}

pub open spec fn sp_and_rest(text: Seq<char>, toks: Seq<Spanned<Tok>>, i: int) -> Result<
    int,
    ParseError,
>
    decreases toks.len() - i, 0int,
{
    if sp_at(toks, i, Tok::And) {
        match sp_cmp(text, toks, i + 1) {
            Result::Ok(j) => if i < j && j <= toks.len() {
                sp_and_rest(text, toks, j)
            } else {
                Err(ParseError::UnexpectedEnd)
            },
            Result::Err(e) => Err(e),
        }
    } else {
        Ok(i)
    }
}

pub open spec fn sp_and(text: Seq<char>, toks: Seq<Spanned<Tok>>, i: int) -> Result<
    int,
    ParseError,
>
    decreases toks.len() - i, 9int,
{
    match sp_cmp(text, toks, i) {
        Result::Ok(j) => if i < j && j <= toks.len() {
            sp_and_rest(text, toks, j)
        } else {
            Err(ParseError::UnexpectedEnd)
        },
        Result::Err(e) => Err(e),
    }
}

pub open spec fn sp_expr_rest(text: Seq<char>, toks: Seq<Spanned<Tok>>, i: int) -> Result<
    int,
    ParseError,
>
    decreases toks.len() - i, 0int,
{
    if sp_at(toks, i, Tok::Or) {
        match sp_and(text, toks, i + 1) {
            Result::Ok(j) => if i < j && j <= toks.len() {
                sp_expr_rest(text, toks, j)
            } else {
                Err(ParseError::UnexpectedEnd)
            },
            Result::Err(e) => Err(e),
        }
    } else {
        Ok(i)
    }
}

pub open spec fn sp_expr(text: Seq<char>, toks: Seq<Spanned<Tok>>, i: int) -> Result<
    int,
    ParseError,
>
    decreases toks.len() - i, 10int,
{
    match sp_and(text, toks, i) {
        Result::Ok(j) => if i < j && j <= toks.len() {
            sp_expr_rest(text, toks, j)
        } else {
            Err(ParseError::UnexpectedEnd)
        },
        Result::Err(e) => Err(e),
    }
}

pub open spec fn sp_opt_cond(text: Seq<char>, toks: Seq<Spanned<Tok>>, i: int) -> Result<
    int,
    ParseError,
>
    decreases toks.len() - i, 11int,
{
    if sp_at(toks, i, Tok::If) {
        sp_expr(text, toks, i + 1)
    } else {
        Ok(i)
    }
}

pub open spec fn sp_props_rest(text: Seq<char>, toks: Seq<Spanned<Tok>>, i: int) -> Result<
    int,
    ParseError,
>
    decreases toks.len() - i, 0int,
{
    if sp_at(toks, i, Tok::RightBrace) {
        Ok(i)
    } else if sp_is_id(toks, i) {
        match sp_expect(toks, i + 1, Tok::Colon) {
            Result::Ok(_) => match sp_object_value(text, toks, i + 2) {
                Result::Ok(j) => if sp_at(toks, j, Tok::Comma) {
                    if i < j + 1 && j + 1 <= toks.len() {
                        sp_props_rest(text, toks, j + 1)
                    } else {
                        Err(ParseError::UnexpectedEnd)
                    }
                } else {
                    Ok(j)
                },
                Result::Err(e) => Err(e),
            },
            Result::Err(e) => Err(e),
        }
    } else {
        Err(sp_err(toks, i))
    }
}

pub open spec fn sp_ctor_rest(text: Seq<char>, toks: Seq<Spanned<Tok>>, i: int) -> Result<
    int,
    ParseError,
>
    decreases toks.len() - i, 11int,
{
    if sp_at(toks, i, Tok::RightParen) {
        Ok(i)
    } else {
        match sp_expr(text, toks, i) {
            Result::Ok(j) => if sp_at(toks, j, Tok::Comma) {
                if i < j + 1 && j + 1 <= toks.len() {
                    sp_ctor_rest(text, toks, j + 1)
                } else {
                    Err(ParseError::UnexpectedEnd)
                }
            } else {
                Ok(j)
            },
            Result::Err(e) => Err(e),
        }
    }
}

pub open spec fn sp_object_value(text: Seq<char>, toks: Seq<Spanned<Tok>>, i: int) -> Result<
    int,
    ParseError,
>
    decreases toks.len() - i, 12int,
{
    if sp_at(toks, i, Tok::LeftBrace) {
        match sp_props_rest(text, toks, i + 1) {
            Result::Ok(j) => sp_expect(toks, j, Tok::RightBrace),
            Result::Err(e) => Err(e),
        }
    } else if sp_is_id(toks, i) {
        if txt(text, toks[i].1->Id_0) == "new"@ {
            if !sp_is_id(toks, i + 1) {
                Err(sp_err(toks, i + 1))
            } else if sp_at(toks, i + 2, Tok::LeftParen) {
                match sp_ctor_rest(text, toks, i + 3) {
                    Result::Ok(j) => sp_expect(toks, j, Tok::RightParen),
                    Result::Err(e) => Err(e),
                }
            } else {
                Ok(i + 2)
            }
        } else {
            sp_expr(text, toks, i)
        }
    } else {
        sp_expr(text, toks, i)
    }
}

pub open spec fn sp_name_ok(n: Seq<char>) -> bool {
    n == "x"@ || n == "y"@ || n == "w"@ || n == "h"@
}

pub open spec fn sp_crop_name_ok(text: Seq<char>, v: StrView) -> bool {
    sp_name_ok(txt(text, v))
}

pub open spec fn sp_entries_allnone(s: Seq<(Option<String>, NumLit)>) -> bool {
    forall|i: int| 0 <= i < s.len() ==> (#[trigger] s[i].0) is None
}

pub open spec fn sp_entries_allsome(s: Seq<(Option<String>, NumLit)>) -> bool {
    forall|i: int| 0 <= i < s.len() ==> (#[trigger] s[i].0) is Some
}

/// How the three entry facts move when one entry is appended.
pub proof fn lemma_entries_push(s: Seq<(Option<String>, NumLit)>, x: (Option<String>, NumLit))
    ensures
        sp_entries_allnone(s.push(x)) == (sp_entries_allnone(s) && x.0 is None),
        sp_entries_allsome(s.push(x)) == (sp_entries_allsome(s) && x.0 is Some),
        sp_entries_badname(s.push(x)) == (sp_entries_badname(s) || (x.0 matches Some(nm)
            && !sp_name_ok(nm@))),
{
    assert(s.push(x)[s.len() as int] == x);
    assert(forall|i: int| 0 <= i < s.len() ==> s.push(x)[i] == s[i]);
    if sp_entries_allnone(s) && x.0 is None {
        assert(forall|i: int| 0 <= i < s.push(x).len() ==> (#[trigger] s.push(x)[i].0) is None);
    }
    if sp_entries_allsome(s) && x.0 is Some {
        assert(forall|i: int| 0 <= i < s.push(x).len() ==> (#[trigger] s.push(x)[i].0) is Some);
    }
    if sp_entries_badname(s) {
        let i = choose|i: int|
            0 <= i < s.len() && ((#[trigger] s[i].0) matches Some(nm) && !sp_name_ok(nm@));
        assert(s.push(x)[i] == s[i]);
        assert(sp_entries_badname(s.push(x)));
    }
    if x.0 matches Some(nm) && !sp_name_ok(nm@) {
        assert(s.push(x)[s.len() as int].0 matches Some(nm2) && !sp_name_ok(nm2@));
        assert(sp_entries_badname(s.push(x)));
    }
    if sp_entries_badname(s.push(x)) && !sp_entries_badname(s) {
        let i = choose|i: int|
            0 <= i < s.push(x).len() && ((#[trigger] s.push(x)[i].0) matches Some(nm)
                && !sp_name_ok(nm@));
        if i < s.len() {
            assert(s[i] == s.push(x)[i]);
            assert(sp_entries_badname(s));
        }
    }
}

pub open spec fn sp_entries_badname(s: Seq<(Option<String>, NumLit)>) -> bool {
    exists|i: int|
        0 <= i < s.len() && ((#[trigger] s[i].0) matches Some(nm) && !sp_name_ok(nm@))
}

/// Scans crop entries, tracking their count, whether all are positional,
/// whether all are named, and whether a named one is not a window field.
pub open spec fn sp_crop_rest(
    text: Seq<char>,
    toks: Seq<Spanned<Tok>>,
    i: int,
    cnt: int,
    allnone: bool,
    allsome: bool,
    badname: bool,
) -> Result<(int, int, bool, bool, bool), ParseError>
    decreases toks.len() - i, 0int,
{
    if sp_at(toks, i, Tok::RightBracket) {
        Ok((i, cnt, allnone, allsome, badname))
    } else if 0 <= i < toks.len() && toks[i].1 is Number {
        if sp_at(toks, i + 1, Tok::Comma) {
            sp_crop_rest(text, toks, i + 2, cnt + 1, allnone, false, badname)
        } else {
            Ok((i + 1, cnt + 1, allnone, false, badname))
        }
    } else if sp_is_id(toks, i) {
        match sp_expect(toks, i + 1, Tok::Colon) {
            Result::Ok(_) => if 0 <= i + 2 < toks.len() && toks[i + 2].1 is Number {
                let bad2 = badname || !sp_crop_name_ok(text, toks[i].1->Id_0);
                if sp_at(toks, i + 3, Tok::Comma) {
                    sp_crop_rest(text, toks, i + 4, cnt + 1, false, allsome, bad2)
                } else {
                    Ok((i + 3, cnt + 1, false, allsome, bad2))
                }
            } else {
                Err(sp_err(toks, i + 2))
            },
            Result::Err(e) => Err(e),
        }
    } else {
        Err(sp_err(toks, i))
    }
}

pub open spec fn sp_img_crop(text: Seq<char>, toks: Seq<Spanned<Tok>>, i: int) -> Result<
    int,
    ParseError,
> {
    match sp_expect(toks, i, Tok::LeftBracket) {
        Result::Ok(i1) => match sp_crop_rest(text, toks, i1, 0, true, true, false) {
            Result::Ok((j, cnt, allnone, allsome, badname)) => match sp_expect(
                toks,
                j,
                Tok::RightBracket,
            ) {
                Result::Ok(j1) => if !(cnt <= 4 && (allnone || allsome)) {
                    Err(
                        ParseError::User {
                            error: Error { location: toks[i].0, code: ErrorCode::InvalidRange },
                        },
                    )
                } else if badname {
                    Err(
                        ParseError::User {
                            error: Error { location: toks[i].0, code: ErrorCode::InvalidRange },
                        },
                    )
                } else {
                    Ok(j1)
                },
                Result::Err(e) => Err(e),
            },
            Result::Err(e) => Err(e),
        },
        Result::Err(e) => Err(e),
    }
}

pub open spec fn sp_style_expr_value(text: Seq<char>, toks: Seq<Spanned<Tok>>, i: int) -> Result<
    int,
    ParseError,
>
    decreases toks.len() - i, 11int,
{
    match sp_expr(text, toks, i) {
        Result::Ok(j) => if sp_is_id(toks, j) {
            if txt(text, toks[j].1->Id_0) == "px"@ {
                Ok(j + 1)
            } else {
                Err(
                    ParseError::User {
                        error: Error { location: toks[j].0, code: ErrorCode::InvalidUnit },
                    },
                )
            }
        } else {
            Ok(j)
        },
        Result::Err(e) => Err(e),
    }
}

pub open spec fn sp_style_value(text: Seq<char>, toks: Seq<Spanned<Tok>>, i: int) -> Result<
    int,
    ParseError,
>
    decreases toks.len() - i, 12int,
{
    if 0 <= i < toks.len() && toks[i].1 is Hex {
        let v = toks[i].1->Hex_0;
        if v.finish_at == v.begin_at {
            Err(ParseError::UnrecognizedToken { location: toks[i].0 })
        } else {
            Ok(i + 1)
        }
    } else if 0 <= i < toks.len() && toks[i].1 is StringLiteral {
        Ok(i + 1)
    } else if sp_is_id(toks, i) {
        let v = toks[i].1->Id_0;
        let is_dollar = v.begin_at < v.finish_at && txt(text, v)[0] == '$';
        let next_br = sp_at(toks, i + 1, Tok::LeftBracket);
        if is_dollar || next_br {
            if sp_at(toks, i + 1, Tok::LeftBracket) {
                sp_img_crop(text, toks, i + 1)
            } else {
                Ok(i + 1)
            }
        } else {
            sp_style_expr_value(text, toks, i)
        }
    } else {
        sp_style_expr_value(text, toks, i)
    }
}

pub open spec fn sp_style_entries(text: Seq<char>, toks: Seq<Spanned<Tok>>, i: int) -> Result<
    int,
    ParseError,
>
    decreases toks.len() - i, 13int,
{
    if sp_at(toks, i, Tok::RightBrace) {
        Ok(i)
    } else if 0 <= i < toks.len() && toks[i].1 is DotId {
        let v = toks[i].1->DotId_0;
        if v.finish_at as int - v.begin_at as int <= 1 {
            Err(ParseError::UnrecognizedToken { location: toks[i].0 })
        } else {
            let step = if sp_at(toks, i + 1, Tok::LeftParen) {
                match sp_id_list(toks, i + 2, Tok::RightParen) {
                    Result::Ok(j) => sp_expect(toks, j, Tok::RightParen),
                    Result::Err(e) => Err(e),
                }
            } else {
                Ok(i + 1)
            };
            match step {
                Result::Ok(j1) => match sp_opt_cond(text, toks, j1) {
                    Result::Ok(j2) => match sp_expect(toks, j2, Tok::Semi) {
                        Result::Ok(j3) => if i < j3 && j3 <= toks.len() {
                            sp_style_entries(text, toks, j3)
                        } else {
                            Err(ParseError::UnexpectedEnd)
                        },
                        Result::Err(e) => Err(e),
                    },
                    Result::Err(e) => Err(e),
                },
                Result::Err(e) => Err(e),
            }
        }
    } else if sp_is_id(toks, i) {
        match sp_expect(toks, i + 1, Tok::Colon) {
            Result::Ok(_) => match sp_style_value(text, toks, i + 2) {
                Result::Ok(j) => match sp_opt_cond(text, toks, j) {
                    Result::Ok(j2) => match sp_expect(toks, j2, Tok::Semi) {
                        Result::Ok(j3) => if i < j3 && j3 <= toks.len() {
                            sp_style_entries(text, toks, j3)
                        } else {
                            Err(ParseError::UnexpectedEnd)
                        },
                        Result::Err(e) => Err(e),
                    },
                    Result::Err(e) => Err(e),
                },
                Result::Err(e) => Err(e),
            },
            Result::Err(e) => Err(e),
        }
    } else {
        Err(sp_err(toks, i))
    }
}

pub open spec fn sp_attrs(text: Seq<char>, toks: Seq<Spanned<Tok>>, i: int) -> Result<
    int,
    ParseError,
>
    decreases toks.len() - i, 14int,
{
    if sp_at(toks, i, Tok::SlashGreaterThan) || sp_at(toks, i, Tok::GreaterThan) {
        Ok(i)
    } else if sp_is_id(toks, i) {
        match sp_expect(toks, i + 1, Tok::Equals) {
            Result::Ok(_) => if txt(text, toks[i].1->Id_0) != "class"@ {
                Err(ParseError::UnrecognizedToken { location: toks[i].0 })
            } else if sp_is_id(toks, i + 2) {
                sp_attrs(text, toks, i + 3)
            } else if sp_at(toks, i + 2, Tok::LeftBrace) {
                match sp_style_entries(text, toks, i + 3) {
                    Result::Ok(j) => match sp_expect(toks, j, Tok::RightBrace) {
                        Result::Ok(j1) => if i < j1 && j1 <= toks.len() {
                            sp_attrs(text, toks, j1)
                        } else {
                            Err(ParseError::UnexpectedEnd)
                        },
                        Result::Err(e) => Err(e),
                    },
                    Result::Err(e) => Err(e),
                }
            } else {
                Err(sp_err(toks, i + 2))
            },
            Result::Err(e) => Err(e),
        }
    } else if sp_at(toks, i, Tok::LeftBracket) {
        if !sp_is_id(toks, i + 1) {
            Err(sp_err(toks, i + 1))
        } else {
            match sp_expect(toks, i + 2, Tok::RightBracket) {
                Result::Ok(_) => match sp_expect(toks, i + 3, Tok::Equals) {
                    Result::Ok(_) => match sp_expect(toks, i + 4, Tok::LeftBrace) {
                        Result::Ok(_) => match sp_object_value(text, toks, i + 5) {
                            Result::Ok(j) => match sp_expect(toks, j, Tok::RightBrace) {
                                Result::Ok(j1) => if i < j1 && j1 <= toks.len() {
                                    sp_attrs(text, toks, j1)
                                } else {
                                    Err(ParseError::UnexpectedEnd)
                                },
                                Result::Err(e) => Err(e),
                            },
                            Result::Err(e) => Err(e),
                        },
                        Result::Err(e) => Err(e),
                    },
                    Result::Err(e) => Err(e),
                },
                Result::Err(e) => Err(e),
            }
        }
    } else if sp_at(toks, i, Tok::LeftParen) {
        if !sp_is_id(toks, i + 1) {
            Err(sp_err(toks, i + 1))
        } else {
            match sp_expect(toks, i + 2, Tok::RightParen) {
                Result::Ok(_) => match sp_expect(toks, i + 3, Tok::Equals) {
                    Result::Ok(_) => match sp_expect(toks, i + 4, Tok::LeftBrace) {
                        Result::Ok(_) => match sp_expr(text, toks, i + 5) {
                            Result::Ok(j) => match sp_expect(toks, j, Tok::RightBrace) {
                                Result::Ok(j1) => if i < j1 && j1 <= toks.len() {
                                    sp_attrs(text, toks, j1)
                                } else {
                                    Err(ParseError::UnexpectedEnd)
                                },
                                Result::Err(e) => Err(e),
                            },
                            Result::Err(e) => Err(e),
                        },
                        Result::Err(e) => Err(e),
                    },
                    Result::Err(e) => Err(e),
                },
                Result::Err(e) => Err(e),
            }
        }
    } else {
        Err(sp_err(toks, i))
    }
}

#[verifier::opaque]
pub open spec fn sp_tag(text: Seq<char>, toks: Seq<Spanned<Tok>>, i: int) -> Result<
    int,
    ParseError,
>
    decreases toks.len() - i, 15int,
{
    if !sp_at(toks, i, Tok::LessThan) {
        Err(sp_err(toks, i))
    } else if !sp_is_id(toks, i + 1) {
        Err(sp_err(toks, i + 1))
    } else {
        let nv = toks[i + 1].1->Id_0;
        if sp_at(toks, i + 2, Tok::Colon) {
            if !sp_is_id(toks, i + 3) {
                Err(sp_err(toks, i + 3))
            } else if txt(text, nv) != "select"@ {
                Err(
                    ParseError::User {
                        error: Error { location: toks[i + 1].0, code: ErrorCode::InvalidSelect },
                    },
                )
            } else if txt(text, toks[i + 3].1->Id_0) != "children"@ {
                Err(
                    ParseError::User {
                        error: Error { location: toks[i + 3].0, code: ErrorCode::InvalidQuery },
                    },
                )
            } else {
                sp_expect(toks, i + 4, Tok::SlashGreaterThan)
            }
        } else {
            match sp_attrs(text, toks, i + 2) {
                Result::Ok(j) => if sp_at(toks, j, Tok::SlashGreaterThan) {
                    Ok(j + 1)
                } else {
                    match sp_expect(toks, j, Tok::GreaterThan) {
                        Result::Ok(j1) => if i < j1 && j1 <= toks.len() {
                            match sp_children(text, toks, j1) {
                                Result::Ok(j2) => match sp_expect(toks, j2, Tok::LessThanSlash) {
                                    Result::Ok(j3) => if !sp_is_id(toks, j3) {
                                        Err(sp_err(toks, j3))
                                    } else {
                                        let cv = toks[j3].1->Id_0;
                                        match sp_expect(toks, j3 + 1, Tok::GreaterThan) {
                                            Result::Ok(j4) => if txt(text, nv) != txt(text, cv) {
                                                Err(
                                                    ParseError::User {
                                                        error: Error {
                                                            location: toks[j3].0,
                                                            code: ErrorCode::UnmatchingTag,
                                                        },
                                                    },
                                                )
                                            } else {
                                                Ok(j4)
                                            },
                                            Result::Err(e) => Err(e),
                                        }
                                    },
                                    Result::Err(e) => Err(e),
                                },
                                Result::Err(e) => Err(e),
                            }
                        } else {
                            Err(ParseError::UnexpectedEnd)
                        },
                        Result::Err(e) => Err(e),
                    }
                },
                Result::Err(e) => Err(e),
            }
        }
    }
}

pub open spec fn sp_node(text: Seq<char>, toks: Seq<Spanned<Tok>>, i: int) -> Result<
    int,
    ParseError,
>
    decreases toks.len() - i, 16int,
{
    if 0 <= i < toks.len() && toks[i].1 is TextNode {
        Ok(i + 1)
    } else if sp_at(toks, i, Tok::LeftBrace) {
        match sp_expect(toks, i + 1, Tok::LeftBrace) {
            Result::Ok(i2) => match sp_path(toks, i2) {
                Result::Ok(j) => match sp_expect(toks, j, Tok::RightBrace) {
                    Result::Ok(j1) => sp_expect(toks, j1, Tok::RightBrace),
                    Result::Err(e) => Err(e),
                },
                Result::Err(e) => Err(e),
            },
            Result::Err(e) => Err(e),
        }
    } else if sp_at(toks, i, Tok::LessThan) {
        sp_tag(text, toks, i)
    } else {
        Err(sp_err(toks, i))
    }
}

pub open spec fn sp_children(text: Seq<char>, toks: Seq<Spanned<Tok>>, i: int) -> Result<
    int,
    ParseError,
>
    decreases toks.len() - i, 17int,
{
    if sp_node_start(toks, i) {
        match sp_node(text, toks, i) {
            Result::Ok(j) => if i < j && j <= toks.len() {
                sp_children(text, toks, j)
            } else {
                Err(ParseError::UnexpectedEnd)
            },
            Result::Err(e) => Err(e),
        }
    } else {
        Ok(i)
    }
}

pub open spec fn sp_body_rest(text: Seq<char>, toks: Seq<Spanned<Tok>>, i: int) -> Result<
    int,
    ParseError,
>
    decreases toks.len() - i, 17int,
{
    if sp_node_start(toks, i) {
        match sp_node(text, toks, i) {
            Result::Ok(j) => if i < j && j <= toks.len() {
                sp_body_rest(text, toks, j)
            } else {
                Err(ParseError::UnexpectedEnd)
            },
            Result::Err(e) => Err(e),
        }
    } else {
        Ok(i)
    }
}

pub open spec fn sp_body(text: Seq<char>, toks: Seq<Spanned<Tok>>, i: int) -> Result<
    int,
    ParseError,
>
    decreases toks.len() - i, 18int,
{
    if !(0 <= i < toks.len()) {
        Err(ParseError::UnexpectedEnd)
    } else if !sp_node_start(toks, i) {
        Err(sp_err(toks, i))
    } else {
        match sp_node(text, toks, i) {
            Result::Ok(j) => if i < j && j <= toks.len() {
                sp_body_rest(text, toks, j)
            } else {
                Err(ParseError::UnexpectedEnd)
            },
            Result::Err(e) => Err(e),
        }
    }
}

pub open spec fn sp_component(text: Seq<char>, toks: Seq<Spanned<Tok>>, i: int) -> Result<
    int,
    ParseError,
>
    decreases toks.len() - i, 19int,
{
    if !(0 <= i < toks.len() && (toks[i].1 == Tok::Component || toks[i].1 == Tok::Template)) {
        Err(sp_err(toks, i))
    } else if !sp_is_id(toks, i + 1) {
        Err(sp_err(toks, i + 1))
    } else {
        let step_args: Result<int, ParseError> = if sp_at(toks, i + 2, Tok::LeftBracket) {
            match sp_id_list(toks, i + 3, Tok::RightBracket) {
                Result::Ok(j) => sp_expect(toks, j, Tok::RightBracket),
                Result::Err(e) => Err(e),
            }
        } else {
            Ok(i + 2)
        };
        match step_args {
            Result::Ok(j1) => {
                let step_ev: Result<int, ParseError> = if sp_at(toks, j1, Tok::Arrow) {
                    if sp_at(toks, j1 + 1, Tok::LeftParen) {
                        match sp_id_list(toks, j1 + 2, Tok::RightParen) {
                            Result::Ok(j) => sp_expect(toks, j, Tok::RightParen),
                            Result::Err(e) => Err(e),
                        }
                    } else if sp_is_id(toks, j1 + 1) {
                        Ok(j1 + 2)
                    } else {
                        Err(sp_err(toks, j1 + 1))
                    }
                } else {
                    Ok(j1)
                };
                match step_ev {
                    Result::Ok(j2) => match sp_expect(toks, j2, Tok::Equals) {
                        Result::Ok(j3) => if i < j3 && j3 <= toks.len() {
                            match sp_body(text, toks, j3) {
                                Result::Ok(j4) => sp_expect(toks, j4, Tok::Semi),
                                Result::Err(e) => Err(e),
                            }
                        } else {
                            Err(ParseError::UnexpectedEnd)
                        },
                        Result::Err(e) => Err(e),
                    },
                    Result::Err(e) => Err(e),
                }
            },
            Result::Err(e) => Err(e),
        }
    }
}

pub open spec fn sp_class(text: Seq<char>, toks: Seq<Spanned<Tok>>, i: int) -> Result<
    int,
    ParseError,
>
    decreases toks.len() - i, 19int,
{
    if !(0 <= i < toks.len() && toks[i].1 is DotId) {
        Err(sp_err(toks, i))
    } else {
        let v = toks[i].1->DotId_0;
        if v.finish_at as int - v.begin_at as int <= 1 {
            Err(ParseError::UnrecognizedToken { location: toks[i].0 })
        } else {
            let step_args: Result<int, ParseError> = if sp_at(toks, i + 1, Tok::LeftParen) {
                match sp_id_list(toks, i + 2, Tok::RightParen) {
                    Result::Ok(j) => sp_expect(toks, j, Tok::RightParen),
                    Result::Err(e) => Err(e),
                }
            } else {
                Ok(i + 1)
            };
            match step_args {
                Result::Ok(j1) => match sp_expect(toks, j1, Tok::LeftBrace) {
                    Result::Ok(j2) => if i < j2 && j2 <= toks.len() {
                        match sp_style_entries(text, toks, j2) {
                            Result::Ok(j3) => sp_expect(toks, j3, Tok::RightBrace),
                            Result::Err(e) => Err(e),
                        }
                    } else {
                        Err(ParseError::UnexpectedEnd)
                    },
                    Result::Err(e) => Err(e),
                },
                Result::Err(e) => Err(e),
            }
        }
    }
}

pub open spec fn sp_datatype(text: Seq<char>, toks: Seq<Spanned<Tok>>, i: int) -> Result<
    int,
    ParseError,
>
    decreases toks.len() - i, 19int,
{
    if !sp_is_id(toks, i + 1) {
        Err(sp_err(toks, i + 1))
    } else {
        let step_args: Result<int, ParseError> = if sp_at(toks, i + 2, Tok::LeftParen) {
            match sp_id_list(toks, i + 3, Tok::RightParen) {
                Result::Ok(j) => sp_expect(toks, j, Tok::RightParen),
                Result::Err(e) => Err(e),
            }
        } else {
            Ok(i + 2)
        };
        match step_args {
            Result::Ok(j1) => match sp_expect(toks, j1, Tok::Equals) {
                Result::Ok(j2) => {
                    let step_def: Result<int, ParseError> = if 0 <= j2 < toks.len() && toks[j2].1
                        is StringLiteral {
                        Ok(j2 + 1)
                    } else if sp_at(toks, j2, Tok::LeftBrace) {
                        if i < j2 && j2 <= toks.len() {
                            sp_object_value(text, toks, j2)
                        } else {
                            Err(ParseError::UnexpectedEnd)
                        }
                    } else if sp_is_id(toks, j2) {
                        if txt(text, toks[j2].1->Id_0) == "new"@ {
                            if sp_is_id(toks, j2 + 1) {
                                Ok(j2 + 2)
                            } else {
                                Err(sp_err(toks, j2 + 1))
                            }
                        } else {
                            Ok(j2 + 1)
                        }
                    } else {
                        Err(sp_err(toks, j2))
                    };
                    match step_def {
                        Result::Ok(j3) => sp_expect(toks, j3, Tok::Semi),
                        Result::Err(e) => Err(e),
                    }
                },
                Result::Err(e) => Err(e),
            },
            Result::Err(e) => Err(e),
        }
    }
}

pub open spec fn sp_let(text: Seq<char>, toks: Seq<Spanned<Tok>>, i: int) -> Result<
    int,
    ParseError,
>
    decreases toks.len() - i, 19int,
{
    if !sp_is_id(toks, i + 1) {
        Err(sp_err(toks, i + 1))
    } else {
        match sp_expect(toks, i + 2, Tok::Equals) {
            Result::Ok(j) => if i < j && j <= toks.len() {
                match sp_object_value(text, toks, j) {
                    Result::Ok(j2) => sp_expect(toks, j2, Tok::Semi),
                    Result::Err(e) => Err(e),
                }
            } else {
                Err(ParseError::UnexpectedEnd)
            },
            Result::Err(e) => Err(e),
        }
    }
}

pub open spec fn sp_item(text: Seq<char>, toks: Seq<Spanned<Tok>>, i: int) -> Result<
    int,
    ParseError,
>
    decreases toks.len() - i, 20int,
{
    if !(0 <= i < toks.len()) {
        Err(ParseError::UnexpectedEnd)
    } else if toks[i].1 == Tok::Export {
        if 0 <= i + 1 < toks.len() && (toks[i + 1].1 == Tok::Component || toks[i + 1].1
            == Tok::Template) {
            sp_component(text, toks, i + 1)
        } else if 0 <= i + 1 < toks.len() && toks[i + 1].1 is DotId {
            sp_class(text, toks, i + 1)
        } else if sp_is_id(toks, i + 1) {
            if txt(text, toks[i + 1].1->Id_0) == "datatype"@ {
                sp_datatype(text, toks, i + 1)
            } else if txt(text, toks[i + 1].1->Id_0) == "let"@ {
                sp_let(text, toks, i + 1)
            } else {
                Err(sp_err(toks, i + 1))
            }
        } else {
            Err(sp_err(toks, i + 1))
        }
    } else if toks[i].1 == Tok::Component || toks[i].1 == Tok::Template {
        sp_component(text, toks, i)
    } else if toks[i].1 == Tok::View {
        if !sp_is_id(toks, i + 1) {
            Err(sp_err(toks, i + 1))
        } else {
            match sp_expect(toks, i + 2, Tok::Equals) {
                Result::Ok(j) => if i < j && j <= toks.len() {
                    match sp_body(text, toks, j) {
                        Result::Ok(j2) => sp_expect(toks, j2, Tok::Semi),
                        Result::Err(e) => Err(e),
                    }
                } else {
                    Err(ParseError::UnexpectedEnd)
                },
                Result::Err(e) => Err(e),
            }
        }
    } else if toks[i].1 is DotId {
        sp_class(text, toks, i)
    } else if toks[i].1 is Id {
        if txt(text, toks[i].1->Id_0) == "datatype"@ {
            sp_datatype(text, toks, i)
        } else if txt(text, toks[i].1->Id_0) == "let"@ {
            sp_let(text, toks, i)
        } else {
            Err(sp_err(toks, i))
        }
    } else {
        Err(sp_err(toks, i))
    }
}

pub open spec fn sp_import(text: Seq<char>, toks: Seq<Spanned<Tok>>, i: int) -> Result<
    int,
    ParseError,
>
    decreases toks.len() - i, 20int,
{
    match sp_expect(toks, i, Tok::Import) {
        Result::Ok(i1) => if sp_at(toks, i1, Tok::Star) {
            match sp_expect(toks, i1 + 1, Tok::From) {
                Result::Ok(i2) => if 0 <= i2 < toks.len() && toks[i2].1 is StringLiteral {
                    sp_expect(toks, i2 + 1, Tok::Semi)
                } else {
                    Err(sp_err(toks, i2))
                },
                Result::Err(e) => Err(e),
            }
        } else if 0 <= i1 < toks.len() && toks[i1].1 is StringLiteral {
            sp_expect(toks, i1 + 1, Tok::Semi)
        } else if sp_at(toks, i1, Tok::LeftBrace) {
            match sp_id_list(toks, i1 + 1, Tok::RightBrace) {
                Result::Ok(j) => match sp_expect(toks, j, Tok::RightBrace) {
                    Result::Ok(j1) => match sp_expect(toks, j1, Tok::From) {
                        Result::Ok(j2) => if 0 <= j2 < toks.len() && toks[j2].1
                            is StringLiteral {
                            sp_expect(toks, j2 + 1, Tok::Semi)
                        } else {
                            Err(sp_err(toks, j2))
                        },
                        Result::Err(e) => Err(e),
                    },
                    Result::Err(e) => Err(e),
                },
                Result::Err(e) => Err(e),
            }
        } else if sp_is_id(toks, i1) {
            if !spec_import_name_ok(txt(text, toks[i1].1->Id_0)) {
                Err(
                    ParseError::User {
                        error: Error { location: toks[i1].0, code: ErrorCode::OnlyFontOrImg },
                    },
                )
            } else {
                match sp_expect(toks, i1 + 1, Tok::From) {
                    Result::Ok(i2) => if 0 <= i2 < toks.len() && toks[i2].1 is StringLiteral {
                        sp_expect(toks, i2 + 1, Tok::Semi)
                    } else {
                        Err(sp_err(toks, i2))
                    },
                    Result::Err(e) => Err(e),
                }
            }
        } else {
            Err(sp_err(toks, i1))
        },
        Result::Err(e) => Err(e),
    }
}

/// The whole package: imports and items until the stream ends.
pub open spec fn sp_package(text: Seq<char>, toks: Seq<Spanned<Tok>>, i: int) -> Result<
    int,
    ParseError,
>
    decreases toks.len() - i, 21int,
{
    if !(0 <= i < toks.len()) {
        Ok(i)
    } else if toks[i].1 == Tok::Import {
        match sp_import(text, toks, i) {
            Result::Ok(j) => if i < j && j <= toks.len() {
                sp_package(text, toks, j)
            } else {
                Err(ParseError::UnexpectedEnd)
            },
            Result::Err(e) => Err(e),
        }
    } else {
        match sp_item(text, toks, i) {
            Result::Ok(j) => if i < j && j <= toks.len() {
                sp_package(text, toks, j)
            } else {
                Err(ParseError::UnexpectedEnd)
            },
            Result::Err(e) => Err(e),
        }
    }
}

/// The outcome of parsing a whole source file: the first lexical failure,
/// or the recognizer's verdict on the token stream. It mentions no
/// builder: acceptance, every error code and every error location are
/// the same under every span policy.
pub open spec fn spec_parse_outcome(text: Seq<char>) -> Result<int, ParseError> {
    match spec_tokenize(text) {
        Result::Ok(toks) => sp_package(text, toks, 0),
        Result::Err(e) => Err(ParseError::User { error: e }),
    }
}

/// The outcome of parsing one expression: the first lexical failure, the
/// expression recognizer's verdict, or the first token it leaves over.
pub open spec fn spec_parse_expression_outcome(text: Seq<char>) -> Result<int, ParseError> {
    match spec_tokenize(text) {
        Result::Ok(toks) => match sp_expr(text, toks, 0) {
            Result::Ok(j) => if j == toks.len() {
                Ok(j)
            } else {
                Err(sp_err(toks, j))
            },
            Result::Err(e) => Err(e),
        },
        Result::Err(e) => Err(ParseError::User { error: e }),
    }
}

/// The import sigil rule at the top of a file: when the token stream
/// opens with an import of a bare name that the rule refuses, the parse
/// fails with the only-font-or-image code at that name, whatever
/// follows.
pub proof fn lemma_import_sigil_error(text: Seq<char>, toks: Seq<Spanned<Tok>>)
    requires
        toks.len() >= 2,
        toks[0].1 == Tok::Import,
        toks[1].1 is Id,
        !spec_import_name_ok(txt(text, toks[1].1->Id_0)),
    ensures
        sp_package(text, toks, 0) == Err::<int, ParseError>(
            ParseError::User {
                error: Error { location: toks[1].0, code: ErrorCode::OnlyFontOrImg },
            },
        ),
{
}

/// The tag matching rule: when the children of an open tag have been
/// consumed and the closing form names a different tag, the tag fails
/// with the unmatching-tag code at the closing name, whatever the
/// attributes and children were.
pub proof fn lemma_unmatching_tag_error(
    text: Seq<char>,
    toks: Seq<Spanned<Tok>>,
    i: int,
    j: int,
    j2: int,
)
    requires
        sp_at(toks, i, Tok::LessThan),
        sp_is_id(toks, i + 1),
        !sp_at(toks, i + 2, Tok::Colon),
        sp_attrs(text, toks, i + 2) == Ok::<int, ParseError>(j),
        !sp_at(toks, j, Tok::SlashGreaterThan),
        sp_at(toks, j, Tok::GreaterThan),
        i < j + 1 <= toks.len(),
        sp_children(text, toks, j + 1) == Ok::<int, ParseError>(j2),
        sp_at(toks, j2, Tok::LessThanSlash),
        sp_is_id(toks, j2 + 1),
        sp_at(toks, j2 + 2, Tok::GreaterThan),
        txt(text, toks[i + 1].1->Id_0) != txt(text, toks[j2 + 1].1->Id_0),
    ensures
        sp_tag(text, toks, i) == Err::<int, ParseError>(
            ParseError::User {
                error: Error { location: toks[j2 + 1].0, code: ErrorCode::UnmatchingTag },
            },
        ),
{
    reveal(sp_tag);
}

} // verus!
