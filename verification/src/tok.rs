use vstd::prelude::*;

verus! {

broadcast use vstd::string::axiom_spec_iter;

// The tokenizer: source text to spanned tokens, under a small state
// machine that tracks whether the cursor stands in plain code, in a
// template or view body, inside a tag, or inside a brace expression,
// because the same characters mean different things in each. Positions
// are character offsets into the text, plus the shift the tokenizer was
// made with.
/// A lexical failure: where, and which rule was broken. The parser also
/// uses these codes for the grammar failures it reports.
#[derive(Clone, Copy, Debug, PartialEq, Eq, Structural)]
pub struct Error {
    pub location: usize,
    pub code: ErrorCode,
}

#[derive(Clone, Copy, Debug, PartialEq, Eq, Structural)]
pub enum ErrorCode {
    UnrecognizedToken,
    UnterminatedTextNode,
    UnterminatedStringLiteral,
    OnlyFontOrImg,
    UnmatchingTag,
    InvalidVarName,
    InvalidUnit,
    InvalidRange,
    InvalidQuery,
    InvalidSelect,
}

/// A failure of the given kind at the given location.
pub fn lex_error<T>(c: ErrorCode, l: usize) -> (r: Result<T, Error>)
    ensures
        r == Err::<T, Error>(Error { location: l, code: c }),
{
    Err(Error { location: l, code: c })
}

/// A range of the source text, in character offsets. Tokens carry these
/// instead of copies of the text; `Tokenizer::text_of` reads one back.
#[derive(Clone, Copy, Debug, PartialEq, Eq, Structural)]
pub struct StrView {
    pub begin_at: usize,
    pub finish_at: usize,
}

impl StrView {
    pub fn from(text: &Vec<char>, start: usize, end: usize) -> (r: StrView)
        requires
            start <= text@.len(),
            end <= text@.len(),
        ensures
            r == (StrView { begin_at: start, finish_at: end }),
    {
        StrView { begin_at: start, finish_at: end }
    }

    /// The smallest range covering both views.
    pub fn merge(&self, other: StrView) -> (r: StrView)
        ensures
            r.begin_at == if self.begin_at <= other.begin_at {
                self.begin_at
            } else {
                other.begin_at
            },
            r.finish_at == if self.finish_at >= other.finish_at {
                self.finish_at
            } else {
                other.finish_at
            },
    {
        StrView {
            begin_at: if self.begin_at <= other.begin_at {
                self.begin_at
            } else {
                other.begin_at
            },
            finish_at: if self.finish_at >= other.finish_at {
                self.finish_at
            } else {
                other.finish_at
            },
        }
    }
}

/// The tokens of the language. Textual payloads are ranges into the
/// source text.
#[derive(Clone, Copy, Debug, PartialEq, Eq, Structural)]
pub enum Tok {
    // Keywords.
    Import,
    From,
    View,
    Template,
    Component,
    Export,
    If,
    // Payload-carrying tokens; a string literal's range excludes its
    // quotes, an identifier's range includes its leading sigil or dot.
    StringLiteral(StrView),
    Number(StrView),
    Hex(StrView),
    TextNode(StrView),
    DotId(StrView),
    Id(StrView),
    // Symbols.
    Arrow,
    LeftBrace,
    RightBrace,
    LeftBracket,
    RightBracket,
    LeftParen,
    RightParen,
    LessThan,
    LessThanSlash,
    GreaterThan,
    SlashGreaterThan,
    GreaterThanOrEqual,
    LessThanOrEqual,
    EqualsEquals,
    BangEquals,
    And,
    Or,
    Div,
    Mod,
    Pipe,
    Bang,
    Caret,
    Equals,
    Plus,
    Minus,
    Semi,
    Star,
    Colon,
    Comma,
    Question,
}

/// The lexical context.
#[derive(Clone, Copy, Debug, PartialEq, Eq, Structural)]
pub enum TokState {
    /// Plain code, outside any body.
    Normal,
    /// A template, view or component keyword was seen; the next equals
    /// sign opens its body.
    WaitingForEq,
    /// Inside a body: bare text is a text node here.
    InTemplateOrView,
    /// Inside a tag.
    InTag,
    /// Inside a brace expression; the state it interrupted is saved.
    InBrace,
}

pub type Spanned<T> = (usize, T, usize);

// Character classes. The identifier classes come from the outside
// tables; the rest are short enough to state directly.
pub uninterp spec fn xid_start(c: char) -> bool;

pub uninterp spec fn xid_continue(c: char) -> bool;

/// Relies on unicode_xid's `is_xid_start` for `char`: whether `c` may
/// start an identifier. Its fast path accepts exactly the ASCII letters,
/// so every other ASCII character is refused.
#[verifier::external_body]
fn exec_xid_start(c: char) -> (r: bool)
    ensures
        r == xid_start(c),
        ('a' <= c && c <= 'z') || ('A' <= c && c <= 'Z') ==> r,
        (c as u32) < 0x80 && !(('a' <= c && c <= 'z') || ('A' <= c && c <= 'Z')) ==> !r,
{
    unicode_xid::UnicodeXID::is_xid_start(c)
}

/// Relies on unicode_xid's `is_xid_continue` for `char`: whether `c` may
/// continue an identifier. Its fast path accepts exactly the ASCII
/// letters, digits and the underscore, so every other ASCII character is
/// refused.
#[verifier::external_body]
fn exec_xid_continue(c: char) -> (r: bool)
    ensures
        r == xid_continue(c),
        ('a' <= c && c <= 'z') || ('A' <= c && c <= 'Z') || ('0' <= c && c <= '9') || c == '_'
            ==> r,
        (c as u32) < 0x80 && !(('a' <= c && c <= 'z') || ('A' <= c && c <= 'Z') || ('0' <= c && c
            <= '9') || c == '_') ==> !r,
{
    unicode_xid::UnicodeXID::is_xid_continue(c)
}

pub uninterp spec fn unicode_whitespace(c: char) -> bool;

/// Relies on `char::is_whitespace`: whether `c` has the Unicode
/// white-space property. Of the ASCII characters exactly the space and
/// the five control characters tab through carriage return have it.
#[verifier::external_body]
fn exec_is_whitespace(c: char) -> (r: bool)
    ensures
        r == unicode_whitespace(c),
        c == ' ' || ('\u{9}' <= c && c <= '\u{d}') ==> r,
        (c as u32) < 0x80 && !(c == ' ' || ('\u{9}' <= c && c <= '\u{d}')) ==> !r,
{
    c.is_whitespace()
}

pub open spec fn is_digit10(c: char) -> bool {
    '0' <= c && c <= '9'
}

pub open spec fn is_digit16(c: char) -> bool {
    ('0' <= c && c <= '9') || ('a' <= c && c <= 'f') || ('A' <= c && c <= 'F')
}

fn exec_is_digit10(c: char) -> (r: bool)
    ensures
        r == is_digit10(c),
{
    '0' <= c && c <= '9'
}

fn exec_is_digit16(c: char) -> (r: bool)
    ensures
        r == is_digit16(c),
{
    ('0' <= c && c <= '9') || ('a' <= c && c <= 'f') || ('A' <= c && c <= 'F')
}

pub open spec fn is_identifier_start(c: char) -> bool {
    xid_start(c)
}

pub open spec fn is_identifier_continue(c: char) -> bool {
    xid_continue(c) || c == '_'
}

// The scanners, as functions from a position to the position they stop
// at. Each returns a position no earlier than where it started.
/// The end of an identifier word started at `i`: the first position
/// whose character cannot continue an identifier.
pub open spec fn scan_word(text: Seq<char>, i: int) -> int
    decreases text.len() - i,
{
    if i < 0 || i >= text.len() {
        text.len() as int
    } else if is_identifier_continue(text[i]) {
        scan_word(text, i + 1)
    } else {
        i
    }
}

/// The end of a hexadecimal digit run started at `i`.
pub open spec fn scan_hex(text: Seq<char>, i: int) -> int
    decreases text.len() - i,
{
    if i < 0 || i >= text.len() {
        text.len() as int
    } else if is_digit16(text[i]) {
        scan_hex(text, i + 1)
    } else {
        i
    }
}

/// The end of a number started at `i`: digits with at most one decimal
/// point among them.
pub open spec fn scan_number(text: Seq<char>, i: int, seen_dot: bool) -> int
    decreases text.len() - i,
{
    if i < 0 || i >= text.len() {
        text.len() as int
    } else if is_digit10(text[i]) {
        scan_number(text, i + 1, seen_dot)
    } else if text[i] == '.' && !seen_dot {
        scan_number(text, i + 1, true)
    } else {
        i
    }
}

/// The position of the first unescaped closing quote at or after `i`,
/// if the text holds one.
pub open spec fn scan_string(text: Seq<char>, i: int, quote: char, escape: bool) -> Option<int>
    decreases text.len() - i,
{
    if i < 0 || i >= text.len() {
        None
    } else if escape {
        scan_string(text, i + 1, quote, false)
    } else if text[i] == '\\' {
        scan_string(text, i + 1, quote, true)
    } else if text[i] == quote {
        Some(i)
    } else {
        scan_string(text, i + 1, quote, false)
    }
}

/// The position of the first text-node terminator at or after `i`, if
/// the text holds one.
pub open spec fn scan_text_end(text: Seq<char>, i: int) -> Option<int>
    decreases text.len() - i,
{
    if i < 0 || i >= text.len() {
        None
    } else if text[i] == ';' || text[i] == '<' || text[i] == '{' {
        Some(i)
    } else {
        scan_text_end(text, i + 1)
    }
}

/// The position of the first line break at or after `i`, or the end of
/// the text.
pub open spec fn scan_line_end(text: Seq<char>, i: int) -> int
    decreases text.len() - i,
{
    if i < 0 || i >= text.len() {
        text.len() as int
    } else if text[i] == '\n' {
        i
    } else {
        scan_line_end(text, i + 1)
    }
}

pub proof fn lemma_scan_line_end_ge(text: Seq<char>, i: int)
    requires
        0 <= i,
    ensures
        scan_line_end(text, i) <= text.len(),
        i <= text.len() ==> scan_line_end(text, i) >= i,
        i >= text.len() ==> scan_line_end(text, i) == text.len(),
    decreases text.len() - i,
{
    if i < text.len() && text[i] != '\n' {
        lemma_scan_line_end_ge(text, i + 1);
    }
}

pub open spec fn spec_keyword(w: Seq<char>) -> Option<Tok> {
    if w == "import"@ {
        Some(Tok::Import)
    } else if w == "export"@ {
        Some(Tok::Export)
    } else if w == "from"@ {
        Some(Tok::From)
    } else if w == "view"@ {
        Some(Tok::View)
    } else if w == "template"@ {
        Some(Tok::Template)
    } else if w == "component"@ {
        Some(Tok::Component)
    } else if w == "if"@ {
        Some(Tok::If)
    } else {
        None
    }
}

/// Whether a keyword opens a body, so that the next equals sign switches
/// the tokenizer into body context.
pub open spec fn spec_keyword_opens_body(t: Tok) -> bool {
    t == Tok::Template || t == Tok::View || t == Tok::Component
}

/// The state after the brace-opening rule.
pub open spec fn spec_go_in_brace(state: TokState, prev: TokState) -> (TokState, TokState) {
    if state == TokState::InTemplateOrView || state == TokState::InTag {
        (TokState::InBrace, state)
    } else {
        (state, prev)
    }
}

/// The state after the brace-closing rule: back to the saved state.
pub open spec fn spec_go_out_of_brace(state: TokState, prev: TokState) -> TokState {
    if state == TokState::InBrace {
        if prev == TokState::InTag {
            TokState::InTag
        } else {
            TokState::InTemplateOrView
        }
    } else {
        state
    }
}

/// One lexing step, before the shift is applied: from a position and the
/// two state fields to the produced token (or failure, or end of input)
/// and the position and states after it. This is the whole tokenizer:
/// `Tokenizer::next` returns exactly this, with spans shifted.
pub open spec fn spec_next(text: Seq<char>, pos: int, state: TokState, prev: TokState) -> (
    Option<Result<Spanned<Tok>, Error>>,
    int,
    TokState,
    TokState,
)
    decreases text.len() - pos,
    via spec_next_decreases
{
    let not_text = state != TokState::InTemplateOrView;
    if pos < 0 || pos >= text.len() {
        (None, pos, state, prev)
    } else {
        let c = text[pos];
        if c == '<' {
            let state2 = if state == TokState::InTemplateOrView {
                TokState::InTag
            } else {
                state
            };
            if pos + 1 < text.len() && text[pos + 1] == '/' {
                (
                    Some(Ok((pos as usize, Tok::LessThanSlash, (pos + 2) as usize))),
                    pos + 2,
                    state2,
                    prev,
                )
            } else if pos + 1 < text.len() && text[pos + 1] == '=' {
                (
                    Some(Ok((pos as usize, Tok::LessThanOrEqual, (pos + 2) as usize))),
                    pos + 2,
                    state2,
                    prev,
                )
            } else {
                (Some(Ok((pos as usize, Tok::LessThan, (pos + 1) as usize))), pos + 1, state2, prev)
            }
        } else if c == '>' {
            let state2 = if state == TokState::InTag {
                TokState::InTemplateOrView
            } else {
                state
            };
            if pos + 1 < text.len() && text[pos + 1] == '=' {
                (
                    Some(Ok((pos as usize, Tok::GreaterThanOrEqual, (pos + 2) as usize))),
                    pos + 2,
                    state2,
                    prev,
                )
            } else {
                (
                    Some(Ok((pos as usize, Tok::GreaterThan, (pos + 1) as usize))),
                    pos + 1,
                    state2,
                    prev,
                )
            }
        } else if c == '{' {
            let (state2, prev2) = spec_go_in_brace(state, prev);
            (Some(Ok((pos as usize, Tok::LeftBrace, (pos + 1) as usize))), pos + 1, state2, prev2)
        } else if c == '}' {
            let state2 = spec_go_out_of_brace(state, prev);
            (Some(Ok((pos as usize, Tok::RightBrace, (pos + 1) as usize))), pos + 1, state2, prev)
        } else if c == ';' {
            let state2 = if state == TokState::InTemplateOrView {
                TokState::Normal
            } else {
                state
            };
            (Some(Ok((pos as usize, Tok::Semi, (pos + 1) as usize))), pos + 1, state2, prev)
        } else if c == '/' {
            if pos + 1 < text.len() && text[pos + 1] == '/' {
                spec_next(text, scan_line_end(text, pos + 2), state, prev)
            } else if pos + 1 < text.len() && text[pos + 1] == '>' {
                (
                    Some(Ok((pos as usize, Tok::SlashGreaterThan, (pos + 2) as usize))),
                    pos + 2,
                    state,
                    prev,
                )
            } else if not_text {
                (Some(Ok((pos as usize, Tok::Div, (pos + 1) as usize))), pos + 1, state, prev)
            } else {
                (
                    Some(
                        Err(
                            Error {
                                location: pos as usize,
                                code: ErrorCode::UnrecognizedToken,
                            },
                        ),
                    ),
                    pos + 1,
                    state,
                    prev,
                )
            }
        } else if c == '-' && not_text {
            if pos + 1 < text.len() && text[pos + 1] == '>' {
                (Some(Ok((pos as usize, Tok::Arrow, (pos + 2) as usize))), pos + 2, state, prev)
            } else {
                (Some(Ok((pos as usize, Tok::Minus, (pos + 1) as usize))), pos + 1, state, prev)
            }
        } else if c == '+' && not_text {
            (Some(Ok((pos as usize, Tok::Plus, (pos + 1) as usize))), pos + 1, state, prev)
        } else if is_digit10(c) && not_text {
            let end = scan_number(text, pos, false);
            (
                Some(
                    Ok(
                        (
                            pos as usize,
                            Tok::Number(StrView { begin_at: pos as usize, finish_at: end as usize }),
                            end as usize,
                        ),
                    ),
                ),
                end,
                state,
                prev,
            )
        } else if c == '#' && not_text {
            if pos + 1 >= text.len() {
                (None, pos + 1, state, prev)
            } else {
                let end = scan_hex(text, pos + 1);
                (
                    Some(
                        Ok(
                            (
                                (pos + 1) as usize,
                                Tok::Hex(
                                    StrView {
                                        begin_at: (pos + 1) as usize,
                                        finish_at: end as usize,
                                    },
                                ),
                                end as usize,
                            ),
                        ),
                    ),
                    end,
                    state,
                    prev,
                )
            }
        } else if c == '$' && not_text {
            let end = scan_word(text, pos + 1);
            (
                Some(
                    Ok(
                        (
                            pos as usize,
                            Tok::Id(StrView { begin_at: pos as usize, finish_at: end as usize }),
                            end as usize,
                        ),
                    ),
                ),
                end,
                state,
                prev,
            )
        } else if c == '!' && not_text {
            if pos + 1 < text.len() && text[pos + 1] == '=' {
                (
                    Some(Ok((pos as usize, Tok::BangEquals, (pos + 2) as usize))),
                    pos + 2,
                    state,
                    prev,
                )
            } else {
                (Some(Ok((pos as usize, Tok::Bang, (pos + 1) as usize))), pos + 1, state, prev)
            }
        } else if c == '%' && not_text {
            (Some(Ok((pos as usize, Tok::Mod, (pos + 1) as usize))), pos + 1, state, prev)
        } else if c == '^' && not_text {
            (Some(Ok((pos as usize, Tok::Caret, (pos + 1) as usize))), pos + 1, state, prev)
        } else if c == ':' && not_text {
            (Some(Ok((pos as usize, Tok::Colon, (pos + 1) as usize))), pos + 1, state, prev)
        } else if c == ',' && not_text {
            (Some(Ok((pos as usize, Tok::Comma, (pos + 1) as usize))), pos + 1, state, prev)
        } else if c == '?' && not_text {
            (Some(Ok((pos as usize, Tok::Question, (pos + 1) as usize))), pos + 1, state, prev)
        } else if c == '.' && not_text {
            let end = scan_word(text, pos + 1);
            (
                Some(
                    Ok(
                        (
                            pos as usize,
                            Tok::DotId(StrView { begin_at: pos as usize, finish_at: end as usize }),
                            end as usize,
                        ),
                    ),
                ),
                end,
                state,
                prev,
            )
        } else if c == '=' && not_text {
            let went_in = state == TokState::WaitingForEq;
            let state2 = if went_in {
                TokState::InTemplateOrView
            } else {
                state
            };
            if pos + 1 < text.len() && text[pos + 1] == '=' && !went_in {
                (
                    Some(Ok((pos as usize, Tok::EqualsEquals, (pos + 2) as usize))),
                    pos + 2,
                    state2,
                    prev,
                )
            } else {
                (Some(Ok((pos as usize, Tok::Equals, (pos + 1) as usize))), pos + 1, state2, prev)
            }
        } else if c == '&' && not_text {
            if pos + 1 < text.len() && text[pos + 1] == '&' {
                (Some(Ok((pos as usize, Tok::And, (pos + 2) as usize))), pos + 2, state, prev)
            } else {
                (
                    Some(
                        Err(
                            Error {
                                location: pos as usize,
                                code: ErrorCode::UnrecognizedToken,
                            },
                        ),
                    ),
                    pos + 1,
                    state,
                    prev,
                )
            }
        } else if c == '|' && not_text {
            if pos + 1 < text.len() && text[pos + 1] == '|' {
                (Some(Ok((pos as usize, Tok::Or, (pos + 2) as usize))), pos + 2, state, prev)
            } else {
                (Some(Ok((pos as usize, Tok::Pipe, (pos + 1) as usize))), pos + 1, state, prev)
            }
        } else if c == '[' && not_text {
            (Some(Ok((pos as usize, Tok::LeftBracket, (pos + 1) as usize))), pos + 1, state, prev)
        } else if c == '(' && not_text {
            (Some(Ok((pos as usize, Tok::LeftParen, (pos + 1) as usize))), pos + 1, state, prev)
        } else if c == ']' && not_text {
            (Some(Ok((pos as usize, Tok::RightBracket, (pos + 1) as usize))), pos + 1, state, prev)
        } else if c == ')' && not_text {
            (Some(Ok((pos as usize, Tok::RightParen, (pos + 1) as usize))), pos + 1, state, prev)
        } else if c == '*' && not_text {
            (Some(Ok((pos as usize, Tok::Star, (pos + 1) as usize))), pos + 1, state, prev)
        } else if (c == '"' || c == '\'') && not_text {
            match scan_string(text, pos + 1, c, false) {
                Option::Some(close) => (
                    Some(
                        Ok(
                            (
                                pos as usize,
                                Tok::StringLiteral(
                                    StrView {
                                        begin_at: (pos + 1) as usize,
                                        finish_at: close as usize,
                                    },
                                ),
                                (close + 1) as usize,
                            ),
                        ),
                    ),
                    close + 1,
                    state,
                    prev,
                ),
                Option::None => (
                    Some(
                        Err(
                            Error {
                                location: pos as usize,
                                code: ErrorCode::UnterminatedStringLiteral,
                            },
                        ),
                    ),
                    text.len() as int,
                    state,
                    prev,
                ),
            }
        } else if is_identifier_start(c) && not_text {
            let scanned = scan_word(text, pos);
            let end = if scanned > pos {
                scanned
            } else {
                pos + 1
            };
            let word = text.subrange(pos, end);
            match spec_keyword(word) {
                Option::Some(t) => {
                    let state2 = if spec_keyword_opens_body(t) {
                        TokState::WaitingForEq
                    } else {
                        state
                    };
                    (Some(Ok((pos as usize, t, end as usize))), end, state2, prev)
                },
                Option::None => (
                    Some(
                        Ok(
                            (
                                pos as usize,
                                Tok::Id(
                                    StrView { begin_at: pos as usize, finish_at: end as usize },
                                ),
                                end as usize,
                            ),
                        ),
                    ),
                    end,
                    state,
                    prev,
                ),
            }
        } else if unicode_whitespace(c) {
            spec_next(text, pos + 1, state, prev)
        } else if state == TokState::InTemplateOrView {
            match scan_text_end(text, pos) {
                Option::Some(term) => (
                    Some(
                        Ok(
                            (
                                pos as usize,
                                Tok::TextNode(
                                    StrView { begin_at: pos as usize, finish_at: term as usize },
                                ),
                                (term + 1) as usize,
                            ),
                        ),
                    ),
                    term,
                    state,
                    prev,
                ),
                Option::None => (
                    Some(
                        Err(
                            Error {
                                location: pos as usize,
                                code: ErrorCode::UnterminatedTextNode,
                            },
                        ),
                    ),
                    text.len() as int,
                    state,
                    prev,
                ),
            }
        } else {
            (
                Some(
                    Err(Error { location: pos as usize, code: ErrorCode::UnrecognizedToken }),
                ),
                pos + 1,
                state,
                prev,
            )
        }
    }
}

#[via_fn]
proof fn spec_next_decreases(text: Seq<char>, pos: int, state: TokState, prev: TokState) {
    if 0 <= pos < text.len() && text[pos] == '/' && pos + 1 < text.len() && text[pos + 1] == '/' {
        lemma_scan_line_end_ge(text, pos + 2);
    }
}

/// The same step with every span and error location moved up by `shift`.
pub open spec fn spec_shifted(o: Option<Result<Spanned<Tok>, Error>>, shift: int) -> Option<
    Result<Spanned<Tok>, Error>,
> {
    match o {
        Option::Some(Result::Ok((l, t, r))) => Some(
            Ok(((l + shift) as usize, t, (r + shift) as usize)),
        ),
        Option::Some(Result::Err(e)) => Some(
            Err(Error { location: (e.location + shift) as usize, code: e.code }),
        ),
        Option::None => None,
    }
}

/// Appends one character. Relies on `String::push`.
#[verifier::external_body]
fn push_char(s: &mut String, c: char)
    ensures
        final(s)@ == old(s)@.push(c),
{
    s.push(c);
}

/// The characters of `s`, in order.
fn str_to_chars(s: &str) -> (r: Vec<char>)
    ensures
        r@ == s@,
{
    let mut out: Vec<char> = Vec::new();
    for c in it: s.chars()
        invariant
            it.seq() == s@,
            out@ == s@.take(it.index() as int),
    {
        out.push(c);
        proof {
            assert(out@ =~= s@.take(it.index() + 1));
        }
    }
    proof {
        assert(s@.take(s@.len() as int) =~= s@);
    }
    out
}

fn exec_scan_word(text: &Vec<char>, i: usize) -> (r: usize)
    requires
        i <= text@.len(),
    ensures
        r == scan_word(text@, i as int),
        i <= r <= text@.len(),
{
    let mut j = i;
    while j < text.len()
        invariant
            i <= j,
            j <= text@.len(),
            scan_word(text@, i as int) == scan_word(text@, j as int),
        decreases text@.len() - j,
    {
        let c = text[j];
        if !(exec_xid_continue(c) || c == '_') {
            return j;
        }
        j = j + 1;
    }
    j
}

fn exec_scan_hex(text: &Vec<char>, i: usize) -> (r: usize)
    requires
        i <= text@.len(),
    ensures
        r == scan_hex(text@, i as int),
        i <= r <= text@.len(),
{
    let mut j = i;
    while j < text.len()
        invariant
            i <= j,
            j <= text@.len(),
            scan_hex(text@, i as int) == scan_hex(text@, j as int),
        decreases text@.len() - j,
    {
        if !exec_is_digit16(text[j]) {
            return j;
        }
        j = j + 1;
    }
    j
}

fn exec_scan_number(text: &Vec<char>, i: usize) -> (r: usize)
    requires
        i <= text@.len(),
    ensures
        r == scan_number(text@, i as int, false),
        i <= r <= text@.len(),
{
    let mut j = i;
    let mut seen_dot = false;
    while j < text.len()
        invariant
            i <= j,
            j <= text@.len(),
            scan_number(text@, i as int, false) == scan_number(text@, j as int, seen_dot),
        decreases text@.len() - j,
    {
        let c = text[j];
        if exec_is_digit10(c) {
            j = j + 1;
        } else if c == '.' && !seen_dot {
            seen_dot = true;
            j = j + 1;
        } else {
            return j;
        }
    }
    j
}

fn exec_scan_string(text: &Vec<char>, i: usize, quote: char) -> (r: Option<usize>)
    requires
        i <= text@.len(),
    ensures
        match scan_string(text@, i as int, quote, false) {
            Option::Some(close) => r == Some(close as usize) && i <= close < text@.len(),
            Option::None => r is None,
        },
{
    let mut j = i;
    let mut escape = false;
    while j < text.len()
        invariant
            i <= j,
            j <= text@.len(),
            scan_string(text@, i as int, quote, false) == scan_string(
                text@,
                j as int,
                quote,
                escape,
            ),
        decreases text@.len() - j,
    {
        let c = text[j];
        if escape {
            escape = false;
            j = j + 1;
        } else if c == '\\' {
            escape = true;
            j = j + 1;
        } else if c == quote {
            return Some(j);
        } else {
            j = j + 1;
        }
    }
    None
}

fn exec_scan_text_end(text: &Vec<char>, i: usize) -> (r: Option<usize>)
    requires
        i <= text@.len(),
    ensures
        match scan_text_end(text@, i as int) {
            Option::Some(term) => r == Some(term as usize) && i <= term < text@.len(),
            Option::None => r is None,
        },
{
    let mut j = i;
    while j < text.len()
        invariant
            i <= j,
            j <= text@.len(),
            scan_text_end(text@, i as int) == scan_text_end(text@, j as int),
        decreases text@.len() - j,
    {
        let c = text[j];
        if c == ';' || c == '<' || c == '{' {
            return Some(j);
        }
        j = j + 1;
    }
    None
}

fn exec_scan_line_end(text: &Vec<char>, i: usize) -> (r: usize)
    requires
        i <= text@.len(),
    ensures
        r == scan_line_end(text@, i as int),
        i <= r <= text@.len(),
{
    let mut j = i;
    while j < text.len()
        invariant
            i <= j,
            j <= text@.len(),
            scan_line_end(text@, i as int) == scan_line_end(text@, j as int),
        decreases text@.len() - j,
    {
        if text[j] == '\n' {
            return j;
        }
        j = j + 1;
    }
    j
}

/// Classifies a word as a keyword.
fn exec_keyword(word: &String) -> (r: Option<Tok>)
    ensures
        r == spec_keyword(word@),
{
    if word.eq(&String::from_str("import")) {
        Some(Tok::Import)
    } else if word.eq(&String::from_str("export")) {
        Some(Tok::Export)
    } else if word.eq(&String::from_str("from")) {
        Some(Tok::From)
    } else if word.eq(&String::from_str("view")) {
        Some(Tok::View)
    } else if word.eq(&String::from_str("template")) {
        Some(Tok::Template)
    } else if word.eq(&String::from_str("component")) {
        Some(Tok::Component)
    } else if word.eq(&String::from_str("if")) {
        Some(Tok::If)
    } else {
        None
    }
}

/// The tokenizer. It owns a copy of the text as characters; `text_of`
/// reads a token's payload back out of it.
pub struct Tokenizer {
    text: Vec<char>,
    pos: usize,
    shift: usize,
    state: TokState,
    prev_state: TokState,
}

impl Tokenizer {
    pub closed spec fn text_model(&self) -> Seq<char> {
        self.text@
    }

    pub closed spec fn pos_model(&self) -> int {
        self.pos as int
    }

    pub closed spec fn shift_model(&self) -> int {
        self.shift as int
    }

    pub closed spec fn state_model(&self) -> TokState {
        self.state
    }

    pub closed spec fn prev_state_model(&self) -> TokState {
        self.prev_state
    }

    /// Shifted spans stay within the machine's address range.
    pub open spec fn wf(&self) -> bool {
        &&& self.text_model().len() + self.shift_model() <= usize::MAX
        &&& 0 <= self.pos_model() <= self.text_model().len()
        &&& 0 <= self.shift_model()
    }

    /// A tokenizer over `text`, reporting every position `shift` later
    /// than it stands in `text` (for composing several files).
    pub fn new(text: &str, shift: usize) -> (t: Tokenizer)
        requires
            text@.len() + shift <= usize::MAX,
        ensures
            t.text_model() == text@,
            t.pos_model() == 0,
            t.shift_model() == shift,
            t.state_model() == TokState::Normal,
            t.prev_state_model() == TokState::Normal,
            t.wf(),
    {
        Tokenizer {
            text: str_to_chars(text),
            pos: 0,
            shift,
            state: TokState::Normal,
            prev_state: TokState::Normal,
        }
    }

    /// The character at position `i` of the text.
    pub fn char_at(&self, i: usize) -> (c: char)
        requires
            i < self.text_model().len(),
        ensures
            c == self.text_model()[i as int],
    {
        self.text[i]
    }

    /// The text a view points at.
    pub fn text_of(&self, v: &StrView) -> (r: String)
        requires
            v.begin_at <= v.finish_at,
            v.finish_at <= self.text_model().len(),
        ensures
            r@ == self.text_model().subrange(v.begin_at as int, v.finish_at as int),
    {
        let mut out = String::new();
        let mut j = v.begin_at;
        while j < v.finish_at
            invariant
                v.begin_at <= j <= v.finish_at,
                v.finish_at <= self.text_model().len(),
                out@ == self.text_model().subrange(v.begin_at as int, j as int),
            decreases v.finish_at - j,
        {
            push_char(&mut out, self.text[j]);
            proof {
                assert(out@ =~= self.text_model().subrange(v.begin_at as int, j + 1));
            }
            j = j + 1;
        }
        out
    }

    /// One token, with its span unshifted; exactly `spec_next` of the
    /// current position and states.
    fn next_unshifted(&mut self) -> (r: Option<Result<Spanned<Tok>, Error>>)
        requires
            old(self).wf(),
        ensures
            ({
                let (tok, pos2, state2, prev2) = spec_next(
                    old(self).text_model(),
                    old(self).pos_model(),
                    old(self).state_model(),
                    old(self).prev_state_model(),
                );
                &&& r == tok
                &&& (r matches Some(Result::Ok((l, t, rr))) ==> token_view_wf(
                    t,
                    old(self).text_model().len() as int,
                ))
                &&& final(self).pos_model() == pos2
                &&& final(self).state_model() == state2
                &&& final(self).prev_state_model() == prev2
                &&& final(self).text_model() == old(self).text_model()
                &&& final(self).shift_model() == old(self).shift_model()
                &&& final(self).wf()
            }),
    {
        loop
            invariant
                self.wf(),
                self.text_model() == old(self).text_model(),
                self.shift_model() == old(self).shift_model(),
                spec_next(
                    old(self).text_model(),
                    old(self).pos_model(),
                    old(self).state_model(),
                    old(self).prev_state_model(),
                ) == spec_next(
                    self.text_model(),
                    self.pos_model(),
                    self.state_model(),
                    self.prev_state_model(),
                ),
            decreases self.text_model().len() - self.pos_model(),
        {
            let n = self.text.len();
            if self.pos >= n {
                return None;
            }
            let pos = self.pos;
            let c = self.text[pos];
            let not_text = !matches!(self.state, TokState::InTemplateOrView);
            if c == '<' {
                if matches!(self.state, TokState::InTemplateOrView) {
                    self.state = TokState::InTag;
                }
                if pos + 1 < n && self.text[pos + 1] == '/' {
                    self.pos = pos + 2;
                    return Some(Ok((pos, Tok::LessThanSlash, pos + 2)));
                } else if pos + 1 < n && self.text[pos + 1] == '=' {
                    self.pos = pos + 2;
                    return Some(Ok((pos, Tok::LessThanOrEqual, pos + 2)));
                } else {
                    self.pos = pos + 1;
                    return Some(Ok((pos, Tok::LessThan, pos + 1)));
                }
            } else if c == '>' {
                if matches!(self.state, TokState::InTag) {
                    self.state = TokState::InTemplateOrView;
                }
                if pos + 1 < n && self.text[pos + 1] == '=' {
                    self.pos = pos + 2;
                    return Some(Ok((pos, Tok::GreaterThanOrEqual, pos + 2)));
                } else {
                    self.pos = pos + 1;
                    return Some(Ok((pos, Tok::GreaterThan, pos + 1)));
                }
            } else if c == '{' {
                if matches!(self.state, TokState::InTemplateOrView) || matches!(
                    self.state,
                    TokState::InTag,
                ) {
                    self.prev_state = self.state;
                    self.state = TokState::InBrace;
                }
                self.pos = pos + 1;
                return Some(Ok((pos, Tok::LeftBrace, pos + 1)));
            } else if c == '}' {
                if matches!(self.state, TokState::InBrace) {
                    if matches!(self.prev_state, TokState::InTag) {
                        self.state = TokState::InTag;
                    } else {
                        self.state = TokState::InTemplateOrView;
                    }
                }
                self.pos = pos + 1;
                return Some(Ok((pos, Tok::RightBrace, pos + 1)));
            } else if c == ';' {
                if matches!(self.state, TokState::InTemplateOrView) {
                    self.state = TokState::Normal;
                }
                self.pos = pos + 1;
                return Some(Ok((pos, Tok::Semi, pos + 1)));
            } else if c == '/' {
                if pos + 1 < n && self.text[pos + 1] == '/' {
                    proof {
                        lemma_scan_line_end_ge(self.text_model(), pos + 2);
                    }
                    self.pos = exec_scan_line_end(&self.text, pos + 2);
                    continue ;
                } else if pos + 1 < n && self.text[pos + 1] == '>' {
                    self.pos = pos + 2;
                    return Some(Ok((pos, Tok::SlashGreaterThan, pos + 2)));
                } else if not_text {
                    self.pos = pos + 1;
                    return Some(Ok((pos, Tok::Div, pos + 1)));
                } else {
                    self.pos = pos + 1;
                    return Some(lex_error(ErrorCode::UnrecognizedToken, pos));
                }
            } else if c == '-' && not_text {
                if pos + 1 < n && self.text[pos + 1] == '>' {
                    self.pos = pos + 2;
                    return Some(Ok((pos, Tok::Arrow, pos + 2)));
                } else {
                    self.pos = pos + 1;
                    return Some(Ok((pos, Tok::Minus, pos + 1)));
                }
            } else if c == '+' && not_text {
                self.pos = pos + 1;
                return Some(Ok((pos, Tok::Plus, pos + 1)));
            } else if exec_is_digit10(c) && not_text {
                let end = exec_scan_number(&self.text, pos);
                self.pos = end;
                return Some(
                    Ok((pos, Tok::Number(StrView { begin_at: pos, finish_at: end }), end)),
                );
            } else if c == '#' && not_text {
                if pos + 1 >= n {
                    self.pos = pos + 1;
                    return None;
                }
                let end = exec_scan_hex(&self.text, pos + 1);
                self.pos = end;
                return Some(
                    Ok(
                        (
                            pos + 1,
                            Tok::Hex(StrView { begin_at: pos + 1, finish_at: end }),
                            end,
                        ),
                    ),
                );
            } else if c == '$' && not_text {
                let end = exec_scan_word(&self.text, pos + 1);
                self.pos = end;
                proof {
                    assert(end >= pos + 1 || end == self.text_model().len());
                }
                return Some(
                    Ok((pos, Tok::Id(StrView { begin_at: pos, finish_at: end }), end)),
                );
            } else if c == '!' && not_text {
                if pos + 1 < n && self.text[pos + 1] == '=' {
                    self.pos = pos + 2;
                    return Some(Ok((pos, Tok::BangEquals, pos + 2)));
                } else {
                    self.pos = pos + 1;
                    return Some(Ok((pos, Tok::Bang, pos + 1)));
                }
            } else if c == '%' && not_text {
                self.pos = pos + 1;
                return Some(Ok((pos, Tok::Mod, pos + 1)));
            } else if c == '^' && not_text {
                self.pos = pos + 1;
                return Some(Ok((pos, Tok::Caret, pos + 1)));
            } else if c == ':' && not_text {
                self.pos = pos + 1;
                return Some(Ok((pos, Tok::Colon, pos + 1)));
            } else if c == ',' && not_text {
                self.pos = pos + 1;
                return Some(Ok((pos, Tok::Comma, pos + 1)));
            } else if c == '?' && not_text {
                self.pos = pos + 1;
                return Some(Ok((pos, Tok::Question, pos + 1)));
            } else if c == '.' && not_text {
                let end = exec_scan_word(&self.text, pos + 1);
                self.pos = end;
                return Some(
                    Ok((pos, Tok::DotId(StrView { begin_at: pos, finish_at: end }), end)),
                );
            } else if c == '=' && not_text {
                let went_in = matches!(self.state, TokState::WaitingForEq);
                if went_in {
                    self.state = TokState::InTemplateOrView;
                }
                if pos + 1 < n && self.text[pos + 1] == '=' && !went_in {
                    self.pos = pos + 2;
                    return Some(Ok((pos, Tok::EqualsEquals, pos + 2)));
                } else {
                    self.pos = pos + 1;
                    return Some(Ok((pos, Tok::Equals, pos + 1)));
                }
            } else if c == '&' && not_text {
                if pos + 1 < n && self.text[pos + 1] == '&' {
                    self.pos = pos + 2;
                    return Some(Ok((pos, Tok::And, pos + 2)));
                } else {
                    self.pos = pos + 1;
                    return Some(lex_error(ErrorCode::UnrecognizedToken, pos));
                }
            } else if c == '|' && not_text {
                if pos + 1 < n && self.text[pos + 1] == '|' {
                    self.pos = pos + 2;
                    return Some(Ok((pos, Tok::Or, pos + 2)));
                } else {
                    self.pos = pos + 1;
                    return Some(Ok((pos, Tok::Pipe, pos + 1)));
                }
            } else if c == '[' && not_text {
                self.pos = pos + 1;
                return Some(Ok((pos, Tok::LeftBracket, pos + 1)));
            } else if c == '(' && not_text {
                self.pos = pos + 1;
                return Some(Ok((pos, Tok::LeftParen, pos + 1)));
            } else if c == ']' && not_text {
                self.pos = pos + 1;
                return Some(Ok((pos, Tok::RightBracket, pos + 1)));
            } else if c == ')' && not_text {
                self.pos = pos + 1;
                return Some(Ok((pos, Tok::RightParen, pos + 1)));
            } else if c == '*' && not_text {
                self.pos = pos + 1;
                return Some(Ok((pos, Tok::Star, pos + 1)));
            } else if (c == '"' || c == '\'') && not_text {
                match exec_scan_string(&self.text, pos + 1, c) {
                    Some(close) => {
                        self.pos = close + 1;
                        return Some(
                            Ok(
                                (
                                    pos,
                                    Tok::StringLiteral(
                                        StrView { begin_at: pos + 1, finish_at: close },
                                    ),
                                    close + 1,
                                ),
                            ),
                        );
                    },
                    None => {
                        self.pos = n;
                        return Some(lex_error(ErrorCode::UnterminatedStringLiteral, pos));
                    },
                }
            } else if exec_xid_start(c) && not_text {
                let scanned = exec_scan_word(&self.text, pos);
                let end = if scanned > pos {
                    scanned
                } else {
                    pos + 1
                };
                let word = self.text_of(&StrView { begin_at: pos, finish_at: end });
                self.pos = end;
                match exec_keyword(&word) {
                    Some(t) => {
                        if matches!(t, Tok::Template) || matches!(t, Tok::View) || matches!(
                            t,
                            Tok::Component,
                        ) {
                            self.state = TokState::WaitingForEq;
                        }
                        return Some(Ok((pos, t, end)));
                    },
                    None => {
                        return Some(
                            Ok((pos, Tok::Id(StrView { begin_at: pos, finish_at: end }), end)),
                        );
                    },
                }
            } else if exec_is_whitespace(c) {
                self.pos = pos + 1;
                continue ;
            } else if matches!(self.state, TokState::InTemplateOrView) {
                match exec_scan_text_end(&self.text, pos) {
                    Some(term) => {
                        self.pos = term;
                        return Some(
                            Ok(
                                (
                                    pos,
                                    Tok::TextNode(StrView { begin_at: pos, finish_at: term }),
                                    term + 1,
                                ),
                            ),
                        );
                    },
                    None => {
                        self.pos = n;
                        return Some(lex_error(ErrorCode::UnterminatedTextNode, pos));
                    },
                }
            } else {
                self.pos = pos + 1;
                return Some(lex_error(ErrorCode::UnrecognizedToken, pos));
            }
        }
    }

    /// The next token, its span and error locations shifted.
    pub fn next(&mut self) -> (r: Option<Result<Spanned<Tok>, Error>>)
        requires
            old(self).wf(),
        ensures
            ({
                let (tok, pos2, state2, prev2) = spec_next(
                    old(self).text_model(),
                    old(self).pos_model(),
                    old(self).state_model(),
                    old(self).prev_state_model(),
                );
                &&& r == spec_shifted(tok, old(self).shift_model())
                &&& (r matches Some(Result::Ok((l, t, rr))) ==> token_view_wf(
                    t,
                    old(self).text_model().len() as int,
                ))
                &&& final(self).pos_model() == pos2
                &&& final(self).state_model() == state2
                &&& final(self).prev_state_model() == prev2
                &&& final(self).text_model() == old(self).text_model()
                &&& final(self).shift_model() == old(self).shift_model()
                &&& final(self).wf()
            }),
    {
        proof {
            lemma_spec_next_bounds(
                self.text_model(),
                self.pos_model(),
                self.state_model(),
                self.prev_state_model(),
            );
        }
        match self.next_unshifted() {
            None => None,
            Some(Ok((l, t, r))) => Some(Ok((l + self.shift, t, r + self.shift))),
            Some(Err(e)) => Some(
                Err(Error { location: e.location + self.shift, code: e.code }),
            ),
        }
    }
}

/// The scanners stay within the text.
pub proof fn lemma_scan_word_le(text: Seq<char>, i: int)
    requires
        0 <= i,
    ensures
        scan_word(text, i) <= text.len(),
        i <= text.len() ==> i <= scan_word(text, i),
    decreases text.len() - i,
{
    if i < text.len() && is_identifier_continue(text[i]) {
        lemma_scan_word_le(text, i + 1);
    }
}

pub proof fn lemma_scan_hex_le(text: Seq<char>, i: int)
    requires
        0 <= i,
    ensures
        scan_hex(text, i) <= text.len(),
        i <= text.len() ==> i <= scan_hex(text, i),
    decreases text.len() - i,
{
    if i < text.len() && is_digit16(text[i]) {
        lemma_scan_hex_le(text, i + 1);
    }
}

pub proof fn lemma_scan_number_le(text: Seq<char>, i: int, seen_dot: bool)
    requires
        0 <= i,
    ensures
        scan_number(text, i, seen_dot) <= text.len(),
        i <= text.len() ==> i <= scan_number(text, i, seen_dot),
    decreases text.len() - i,
{
    if i < text.len() {
        if is_digit10(text[i]) {
            lemma_scan_number_le(text, i + 1, seen_dot);
        } else if text[i] == '.' && !seen_dot {
            lemma_scan_number_le(text, i + 1, true);
        }
    }
}

pub proof fn lemma_scan_string_le(text: Seq<char>, i: int, quote: char, escape: bool)
    requires
        0 <= i,
    ensures
        scan_string(text, i, quote, escape) matches Some(close) ==> i <= close < text.len(),
    decreases text.len() - i,
{
    if i < text.len() {
        lemma_scan_string_le(text, i + 1, quote, false);
        lemma_scan_string_le(text, i + 1, quote, true);
    }
}

pub proof fn lemma_scan_text_end_le(text: Seq<char>, i: int)
    requires
        0 <= i,
    ensures
        scan_text_end(text, i) matches Some(term) ==> i <= term < text.len(),
    decreases text.len() - i,
{
    if i < text.len() {
        lemma_scan_text_end_le(text, i + 1);
    }
}

/// Every span and error location a lexing step yields lies within the
/// text.
pub proof fn lemma_spec_next_bounds(text: Seq<char>, pos: int, state: TokState, prev: TokState)
    ensures
        ({
            let (tok, pos2, state2, prev2) = spec_next(text, pos, state, prev);
            match tok {
                Option::Some(Result::Ok((l, t, r))) => l <= text.len() && r <= text.len(),
                Option::Some(Result::Err(e)) => e.location <= text.len(),
                Option::None => true,
            }
        }),
    decreases text.len() - pos,
{
    if 0 <= pos < text.len() {
        lemma_scan_line_end_ge(text, pos + 2);
        lemma_spec_next_bounds(text, scan_line_end(text, pos + 2), state, prev);
        lemma_spec_next_bounds(text, pos + 1, state, prev);
        lemma_scan_word_le(text, pos);
        lemma_scan_word_le(text, pos + 1);
        lemma_scan_hex_le(text, pos + 1);
        lemma_scan_number_le(text, pos, false);
        lemma_scan_string_le(text, pos + 1, text[pos], false);
        lemma_scan_text_end_le(text, pos);
    }
}

/// The ranges a payload token carries lie within the text, in order.
pub open spec fn token_view_wf(t: Tok, len: int) -> bool {
    match t {
        Tok::Id(v) | Tok::DotId(v) | Tok::Number(v) | Tok::Hex(v) | Tok::TextNode(v)
            | Tok::StringLiteral(v) => v.begin_at <= v.finish_at && v.finish_at <= len,
        _ => true,
    }
}

/// The tokenizer round-trip law for text nodes: a text-node token's
/// range starts at the token's own start and ends right before the
/// delimiter that closed it, so the captured text is the source slice
/// between the delimiters, with no transformation. (`text_of` reads a
/// range back as exactly that slice of the source.)
#[verifier::rlimit(60)]
#[verifier::spinoff_prover]
pub proof fn lemma_text_node_round_trip(text: Seq<char>, pos: int, state: TokState, prev: TokState)
    requires
        text.len() <= usize::MAX,
    ensures
        ({
            let (tok, pos2, state2, prev2) = spec_next(text, pos, state, prev);
            match tok {
                Option::Some(Result::Ok((l, Tok::TextNode(v), r))) => v.begin_at == l
                    && v.finish_at + 1 == r && v.finish_at <= text.len(),
                _ => true,
            }
        }),
    decreases text.len() - pos,
{
    if 0 <= pos < text.len() {
        lemma_scan_line_end_ge(text, pos + 2);
        lemma_text_node_round_trip(text, scan_line_end(text, pos + 2), state, prev);
        lemma_text_node_round_trip(text, pos + 1, state, prev);
        lemma_scan_text_end_le(text, pos);
    }
}

/// A lexing step always moves forward: a produced token or failure
/// stands strictly later, and even at the end the position never moves
/// back.
#[verifier::rlimit(100)]
#[verifier::spinoff_prover]
pub proof fn lemma_spec_next_progress(text: Seq<char>, pos: int, state: TokState, prev: TokState)
    requires
        0 <= pos,
        text.len() <= usize::MAX,
    ensures
        ({
            let (tok, pos2, state2, prev2) = spec_next(text, pos, state, prev);
            &&& (tok is Some ==> pos2 > pos)
            &&& pos2 >= pos
            &&& (pos <= text.len() ==> pos2 <= text.len())
        }),
    decreases text.len() - pos,
{
    if 0 <= pos < text.len() {
        lemma_scan_line_end_ge(text, pos + 2);
        lemma_spec_next_progress(text, scan_line_end(text, pos + 2), state, prev);
        lemma_spec_next_progress(text, pos + 1, state, prev);
        lemma_scan_word_le(text, pos + 1);
        lemma_scan_hex_le(text, pos + 1);
        lemma_scan_number_le(text, pos + 1, false);
        lemma_scan_string_le(text, pos + 1, text[pos], false);
        lemma_scan_text_end_le(text, pos + 1);
        if is_identifier_start(text[pos]) {
            lemma_scan_word_le(text, pos);
        }
    }
}

/// The whole token stream of the text from the given position and
/// states: every token in order, or the first lexical failure. The
/// stream `Tokenizer::next` hands out, one call after another, is
/// exactly this.
pub open spec fn spec_tokenize_from(
    text: Seq<char>,
    pos: int,
    state: TokState,
    prev: TokState,
) -> Result<Seq<Spanned<Tok>>, Error>
    decreases text.len() - pos,
    via spec_tokenize_from_decreases
{
    if pos < 0 || text.len() > usize::MAX {
        Ok(Seq::empty())
    } else {
        let (tok, pos2, state2, prev2) = spec_next(text, pos, state, prev);
        match tok {
            Option::None => Ok(Seq::empty()),
            Option::Some(Result::Err(e)) => Err(e),
            Option::Some(Result::Ok(t)) => match spec_tokenize_from(text, pos2, state2, prev2) {
                Result::Ok(rest) => Ok(Seq::empty().push(t) + rest),
                Result::Err(e) => Err(e),
            },
        }
    }
}

#[via_fn]
proof fn spec_tokenize_from_decreases(text: Seq<char>, pos: int, state: TokState, prev: TokState) {
    if 0 <= pos && text.len() <= usize::MAX {
        lemma_spec_next_progress(text, pos, state, prev);
    }
}

/// The token stream of a whole text.
pub open spec fn spec_tokenize(text: Seq<char>) -> Result<Seq<Spanned<Tok>>, Error> {
    spec_tokenize_from(text, 0, TokState::Normal, TokState::Normal)
}

} // verus!
