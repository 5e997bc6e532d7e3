//! Lexical analysis: converts source text into a stream of classified
//! tokens, tracking line numbers and skipping whitespace and block
//! comments.
//!
//! The behaviour of the scanner is captured by the specification
//! functions [`spec_skip`], [`ident_end`], [`digit_end`], [`keyword_kind`]
//! and [`spec_scan`]; [`Scanner::next_token`] is proved to follow
//! [`spec_scan`] exactly.

use vstd::prelude::*;

use crate::error::{Error, ErrorTag, ErrorTagV};

verus! {

/// Represents a token's type in a source text.
#[derive(Debug)]
pub enum TokenTag {
    /// The `BEGIN` keyword.
    Begin,

    /// A `:`.
    Colon,

    /// A `.`
    Dot,

    /// The `END` keyword.
    End,

    /// Represents the end of the source text.
    Eof,

    /// A sequence of letters or digits that is not a keyword.
    Identifier(String),

    /// A sequence of digits.
    Integer(String),

    /// The `MODULE` keyword.
    Module,

    /// The `PROCEDURE` keyword.
    Procedure,

    /// The `RETURN` keyword.
    Return,

    /// A `;`.
    Semicolon,

    /// A '*'.
    Star,
}

/// Mathematical view of a [`TokenTag`]: carried text becomes a character
/// sequence.
pub enum TokenKindV {
    Begin,
    Colon,
    Dot,
    End,
    Eof,
    Identifier(Seq<char>),
    Integer(Seq<char>),
    Module,
    Procedure,
    Return,
    Semicolon,
    Star,
}

impl View for TokenTag {
    type V = TokenKindV;

    open spec fn view(&self) -> TokenKindV {
        match self {
            TokenTag::Begin => TokenKindV::Begin,
            TokenTag::Colon => TokenKindV::Colon,
            TokenTag::Dot => TokenKindV::Dot,
            TokenTag::End => TokenKindV::End,
            TokenTag::Eof => TokenKindV::Eof,
            TokenTag::Identifier(text) => TokenKindV::Identifier(text@),
            TokenTag::Integer(text) => TokenKindV::Integer(text@),
            TokenTag::Module => TokenKindV::Module,
            TokenTag::Procedure => TokenKindV::Procedure,
            TokenTag::Return => TokenKindV::Return,
            TokenTag::Semicolon => TokenKindV::Semicolon,
            TokenTag::Star => TokenKindV::Star,
        }
    }
}

impl Clone for TokenTag {
    /// Cloning preserves the tag exactly, carried text included.
    fn clone(&self) -> (r: Self)
        ensures
            r == *self,
    {
        match self {
            TokenTag::Begin => TokenTag::Begin,
            TokenTag::Colon => TokenTag::Colon,
            TokenTag::Dot => TokenTag::Dot,
            TokenTag::End => TokenTag::End,
            TokenTag::Eof => TokenTag::Eof,
            TokenTag::Identifier(text) => TokenTag::Identifier(text.clone()),
            TokenTag::Integer(text) => TokenTag::Integer(text.clone()),
            TokenTag::Module => TokenTag::Module,
            TokenTag::Procedure => TokenTag::Procedure,
            TokenTag::Return => TokenTag::Return,
            TokenTag::Semicolon => TokenTag::Semicolon,
            TokenTag::Star => TokenTag::Star,
        }
    }
}

impl PartialEq for TokenTag {
    /// Two tags are equal when they are the same variant carrying the
    /// same text.
    fn eq(&self, other: &TokenTag) -> (r: bool) {
        match (self, other) {
            (TokenTag::Begin, TokenTag::Begin) => true,
            (TokenTag::Colon, TokenTag::Colon) => true,
            (TokenTag::Dot, TokenTag::Dot) => true,
            (TokenTag::End, TokenTag::End) => true,
            (TokenTag::Eof, TokenTag::Eof) => true,
            (TokenTag::Identifier(a), TokenTag::Identifier(b)) => a.eq(b),
            (TokenTag::Integer(a), TokenTag::Integer(b)) => a.eq(b),
            (TokenTag::Module, TokenTag::Module) => true,
            (TokenTag::Procedure, TokenTag::Procedure) => true,
            (TokenTag::Return, TokenTag::Return) => true,
            (TokenTag::Semicolon, TokenTag::Semicolon) => true,
            (TokenTag::Star, TokenTag::Star) => true,
            _ => false,
        }
    }
}

impl vstd::std_specs::cmp::PartialEqSpecImpl for TokenTag {
    open spec fn obeys_eq_spec() -> bool {
        true
    }

    open spec fn eq_spec(&self, other: &TokenTag) -> bool {
        self@ == other@
    }
}

/// A token from a source text.
#[derive(Debug)]
pub struct Token {
    /// The token's type.
    pub tag: TokenTag,

    /// The line in the source text on which the token starts.
    pub line: usize,
}

/// Mathematical view of a [`Token`].
pub struct TokenV {
    pub kind: TokenKindV,
    pub line: nat,
}

impl View for Token {
    type V = TokenV;

    open spec fn view(&self) -> TokenV {
        TokenV { kind: self.tag@, line: self.line as nat }
    }
}

impl Clone for Token {
    /// Cloning preserves the token exactly.
    fn clone(&self) -> (r: Self)
        ensures
            r == *self,
    {
        Token { tag: self.tag.clone(), line: self.line }
    }
}

impl Token {
    /// Constructs a new Token.
    pub fn new(tag: TokenTag, line: usize) -> (r: Self)
        ensures
            r.tag == tag,
            r.line == line,
    {
        Self { tag, line }
    }
}

/// Whether `c` is an ASCII alphabetic character.
pub open spec fn is_alpha_char(c: char) -> bool {
    ('a' as u32 <= c as u32 && c as u32 <= 'z' as u32) || ('A' as u32 <= c as u32 && c as u32
        <= 'Z' as u32)
}

/// Whether `c` is an ASCII digit.
pub open spec fn is_digit_char(c: char) -> bool {
    '0' as u32 <= c as u32 && c as u32 <= '9' as u32
}

/// Whether `c` is a whitespace character the scanner skips.
pub open spec fn is_ws_char(c: char) -> bool {
    c == ' ' || c == '\t' || c == '\r' || c == '\n'
}

/// Determines if a given character is alphabetic (ASCII).
fn is_alpha(c: char) -> (r: bool)
    ensures
        r == is_alpha_char(c),
{
    let u = c as u32;
    ('a' as u32 <= u && u <= 'z' as u32) || ('A' as u32 <= u && u <= 'Z' as u32)
}

/// Determines if a given character is a digit (ASCII).
fn is_digit(c: char) -> (r: bool)
    ensures
        r == is_digit_char(c),
{
    let u = c as u32;
    '0' as u32 <= u && u <= '9' as u32
}

/// Determines if a given character is whitespace.
fn is_whitespace(c: char) -> (r: bool)
    ensures
        r == is_ws_char(c),
{
    c == ' ' || c == '\t' || c == '\r' || c == '\n'
}

/// The number of newline characters in `s`.
pub open spec fn count_nl(s: Seq<char>) -> nat
    decreases s.len(),
{
    if s.len() == 0 {
        0
    } else {
        count_nl(s.drop_last()) + if s.last() == '\n' {
            1nat
        } else {
            0nat
        }
    }
}

/// The 1-based line number of position `pos` in `src`: one more than the
/// number of newlines before it.
pub open spec fn line_at(src: Seq<char>, pos: int) -> nat {
    1 + count_nl(src.take(pos))
}

/// There are at most as many newlines in `s` as characters.
pub proof fn lemma_count_nl_le(s: Seq<char>)
    ensures
        count_nl(s) <= s.len(),
    decreases s.len(),
{
    if s.len() > 0 {
        lemma_count_nl_le(s.drop_last());
    }
}

/// Consuming one character advances the line count exactly when that
/// character is a newline.
pub proof fn lemma_line_step(src: Seq<char>, pos: int)
    requires
        0 <= pos < src.len(),
    ensures
        line_at(src, pos + 1) == line_at(src, pos) + if src[pos] == '\n' {
            1int
        } else {
            0int
        },
{
    assert(src.take(pos + 1).drop_last() =~= src.take(pos));
    assert(src.take(pos + 1).last() == src[pos]);
}

/// The position after all whitespace and block comments starting at
/// `pos`, or `None` when the input ends inside a comment. `in_comment`
/// says whether `pos` currently sits inside a block comment.
pub open spec fn spec_skip(src: Seq<char>, pos: int, in_comment: bool) -> Option<int>
    decreases src.len() - pos,
    when 0 <= pos <= src.len()
{
    if !in_comment {
        if pos + 1 < src.len() && src[pos] == '(' && src[pos + 1] == '*' {
            spec_skip(src, pos + 2, true)
        } else if pos < src.len() && is_ws_char(src[pos]) {
            spec_skip(src, pos + 1, false)
        } else {
            Some(pos)
        }
    } else {
        if pos + 1 < src.len() && src[pos] == '*' && src[pos + 1] == ')' {
            spec_skip(src, pos + 2, false)
        } else if pos < src.len() {
            spec_skip(src, pos + 1, true)
        } else {
            None
        }
    }
}

/// Skipping never moves backward and never leaves the input.
pub proof fn lemma_skip_bounds(src: Seq<char>, pos: int, in_comment: bool)
    requires
        0 <= pos <= src.len(),
    ensures
        spec_skip(src, pos, in_comment) matches Some(p) ==> pos <= p <= src.len(),
    decreases src.len() - pos,
{
    if !in_comment {
        if pos + 1 < src.len() && src[pos] == '(' && src[pos + 1] == '*' {
            lemma_skip_bounds(src, pos + 2, true);
        } else if pos < src.len() && is_ws_char(src[pos]) {
            lemma_skip_bounds(src, pos + 1, false);
        }
    } else {
        if pos + 1 < src.len() && src[pos] == '*' && src[pos + 1] == ')' {
            lemma_skip_bounds(src, pos + 2, false);
        } else if pos < src.len() {
            lemma_skip_bounds(src, pos + 1, true);
        }
    }
}

/// The end of the maximal run of letters and digits starting at `pos`.
pub open spec fn ident_end(src: Seq<char>, pos: int) -> int
    decreases src.len() - pos,
    when 0 <= pos <= src.len()
{
    if pos < src.len() && (is_alpha_char(src[pos]) || is_digit_char(src[pos])) {
        ident_end(src, pos + 1)
    } else {
        pos
    }
}

/// The end of the maximal run of digits starting at `pos`.
pub open spec fn digit_end(src: Seq<char>, pos: int) -> int
    decreases src.len() - pos,
    when 0 <= pos <= src.len()
{
    if pos < src.len() && is_digit_char(src[pos]) {
        digit_end(src, pos + 1)
    } else {
        pos
    }
}

/// A maximal alphanumeric run neither moves backward nor leaves the
/// input, and is nonempty when it starts on a letter or digit.
pub proof fn lemma_ident_end_bounds(src: Seq<char>, pos: int)
    requires
        0 <= pos <= src.len(),
    ensures
        pos <= ident_end(src, pos) <= src.len(),
        pos < src.len() && (is_alpha_char(src[pos]) || is_digit_char(src[pos])) ==> pos
            < ident_end(src, pos),
    decreases src.len() - pos,
{
    if pos < src.len() && (is_alpha_char(src[pos]) || is_digit_char(src[pos])) {
        lemma_ident_end_bounds(src, pos + 1);
    }
}

/// A maximal digit run neither moves backward nor leaves the input, and
/// is nonempty when it starts on a digit.
pub proof fn lemma_digit_end_bounds(src: Seq<char>, pos: int)
    requires
        0 <= pos <= src.len(),
    ensures
        pos <= digit_end(src, pos) <= src.len(),
        pos < src.len() && is_digit_char(src[pos]) ==> pos < digit_end(src, pos),
    decreases src.len() - pos,
{
    if pos < src.len() && is_digit_char(src[pos]) {
        lemma_digit_end_bounds(src, pos + 1);
    }
}

/// The token kind of an alphanumeric lexeme: the matching keyword, or an
/// identifier. Keyword matching is exact and case-sensitive.
pub open spec fn keyword_kind(lex: Seq<char>) -> TokenKindV {
    if lex == "BEGIN"@ {
        TokenKindV::Begin
    } else if lex == "END"@ {
        TokenKindV::End
    } else if lex == "MODULE"@ {
        TokenKindV::Module
    } else if lex == "PROCEDURE"@ {
        TokenKindV::Procedure
    } else if lex == "RETURN"@ {
        TokenKindV::Return
    } else {
        TokenKindV::Identifier(lex)
    }
}

/// The outcome of producing one token from `src`: a token or an error,
/// with the line it carries and the scanner's position afterward.
pub enum Scanned {
    Tok { kind: TokenKindV, line: nat, end: int },
    Fail { err: ErrorTagV, line: nat, end: int },
}

/// One token scanned from position `pos` on, after whitespace and
/// comments, assuming the token is not a letter-or-digit run: a symbol,
/// the end of input, or an unexpected character.
pub open spec fn spec_symbol(src: Seq<char>, pos: int) -> Scanned {
    if pos == src.len() {
        Scanned::Tok { kind: TokenKindV::Eof, line: line_at(src, pos), end: pos }
    } else if src[pos] == ':' {
        Scanned::Tok { kind: TokenKindV::Colon, line: line_at(src, pos), end: pos + 1 }
    } else if src[pos] == '.' {
        Scanned::Tok { kind: TokenKindV::Dot, line: line_at(src, pos), end: pos + 1 }
    } else if src[pos] == ';' {
        Scanned::Tok { kind: TokenKindV::Semicolon, line: line_at(src, pos), end: pos + 1 }
    } else if src[pos] == '*' {
        Scanned::Tok { kind: TokenKindV::Star, line: line_at(src, pos), end: pos + 1 }
    } else {
        Scanned::Fail {
            err: ErrorTagV::UnexpectedCharacter(src[pos]),
            line: line_at(src, pos),
            end: pos,
        }
    }
}

/// One token scanned from position `pos` of `src`: skip whitespace and
/// comments, then scan an identifier or keyword, an integer, a symbol,
/// or the end of input.
pub open spec fn spec_scan(src: Seq<char>, pos: int) -> Scanned {
    match spec_skip(src, pos, false) {
        None => Scanned::Fail {
            err: ErrorTagV::UnterminatedComment,
            line: line_at(src, src.len() as int),
            end: src.len() as int,
        },
        Some(p) => {
            if p < src.len() && is_alpha_char(src[p]) {
                Scanned::Tok {
                    kind: keyword_kind(src.subrange(p, ident_end(src, p))),
                    line: line_at(src, p),
                    end: ident_end(src, p),
                }
            } else if p < src.len() && is_digit_char(src[p]) {
                Scanned::Tok {
                    kind: TokenKindV::Integer(src.subrange(p, digit_end(src, p))),
                    line: line_at(src, p),
                    end: digit_end(src, p),
                }
            } else {
                spec_symbol(src, p)
            }
        },
    }
}

/// Represents an object which converts a source text into a stream of
/// tokens.
pub struct Scanner {
    /// The source text.
    text: String,

    /// The number of characters in the source text.
    len: usize,

    /// The position of the next character to consume.
    pos: usize,

    /// The line the next character is on in the source text.
    line: usize,
}

/// A well-formed scanner sits at a position inside its source text.
pub broadcast proof fn lemma_scanner_wf_bounds(s: &Scanner)
    requires
        #[trigger] s.wf(),
    ensures
        0 <= s.pos() <= s.src().len(),
{
}

impl Scanner {
    /// The source text being scanned, as a character sequence.
    pub closed spec fn src(&self) -> Seq<char> {
        self.text@
    }

    /// The scanner's position in the source text.
    pub closed spec fn pos(&self) -> int {
        self.pos as int
    }

    /// Internal consistency: the cached length and line agree with the
    /// text and position.
    pub closed spec fn wf(&self) -> bool {
        &&& self.len == self.text@.len()
        &&& self.pos <= self.len
        &&& self.line == line_at(self.text@, self.pos as int)
        &&& self.text@.len() < usize::MAX
    }

    /// Constructs a scanner that is ready to produce tokens from a given
    /// source text.
    pub fn new(source: &str) -> (r: Scanner)
        requires
            source@.len() < usize::MAX,
        ensures
            r.wf(),
            r.src() == source@,
            r.pos() == 0,
    {
        let text = source.to_owned();
        let len = source.unicode_len();
        proof {
            assert(text@.take(0) =~= Seq::<char>::empty());
        }
        Scanner { text, len, pos: 0, line: 1 }
    }

    /// Advances past the current character, counting lines.
    fn advance(&mut self)
        requires
            old(self).wf(),
        ensures
            final(self).wf(),
            final(self).src() == old(self).src(),
            final(self).pos() == if old(self).pos() < old(self).src().len() {
                old(self).pos() + 1
            } else {
                old(self).pos()
            },
    {
        if self.pos < self.len {
            let c = self.text.as_str().get_char(self.pos);
            proof {
                lemma_line_step(self.text@, self.pos as int);
                lemma_count_nl_le(self.text@.take(self.pos as int));
            }
            if c == '\n' {
                self.line = self.line + 1;
            }
            self.pos = self.pos + 1;
        }
    }

    /// Attempt to get the next token in the source text.
    pub fn next_token(&mut self) -> (r: Result<Token, Error>)
        requires
            old(self).wf(),
        ensures
            final(self).wf(),
            final(self).src() == old(self).src(),
            match spec_scan(old(self).src(), old(self).pos()) {
                Scanned::Tok { kind, line, end } => r matches Ok(t) && t@.kind == kind && t@.line
                    == line && final(self).pos() == end,
                Scanned::Fail { err, line, end } => r matches Err(e) && e@.tag == err && e@.line
                    == line && final(self).pos() == end,
            },
    {
        match self.skip_whitespace_comments() {
            Err(e) => {
                return Err(e);
            },
            Ok(_) => {},
        }

        if self.pos < self.len {
            let c = self.text.as_str().get_char(self.pos);
            if is_alpha(c) {
                return self.identifier();
            }
            if is_digit(c) {
                return self.number();
            }
        }
        self.symbol()
    }

    /// Skips all white space characters and comments before the next
    /// token.
    fn skip_whitespace_comments(&mut self) -> (r: Result<(), Error>)
        requires
            old(self).wf(),
        ensures
            final(self).wf(),
            final(self).src() == old(self).src(),
            match spec_skip(old(self).src(), old(self).pos(), false) {
                Some(p) => r is Ok && final(self).pos() == p,
                None => r matches Err(e) && e@.tag == ErrorTagV::UnterminatedComment && e@.line
                    == line_at(old(self).src(), old(self).src().len() as int) && final(self).pos()
                    == old(self).src().len(),
            },
    {
        let mut in_comment = false;
        loop
            invariant
                self.wf(),
                self.src() == old(self).src(),
                spec_skip(self.src(), self.pos(), in_comment) == spec_skip(
                    old(self).src(),
                    old(self).pos(),
                    false,
                ),
            decreases self.src().len() - self.pos(),
        {
            if !in_comment {
                if self.pos + 1 < self.len && self.text.as_str().get_char(self.pos) == '('
                    && self.text.as_str().get_char(self.pos + 1) == '*' {
                    in_comment = true;
                    self.advance();
                    self.advance();
                } else if self.pos < self.len && is_whitespace(
                    self.text.as_str().get_char(self.pos),
                ) {
                    self.advance();
                } else {
                    return Ok(());
                }
            } else {
                if self.pos + 1 < self.len && self.text.as_str().get_char(self.pos) == '*'
                    && self.text.as_str().get_char(self.pos + 1) == ')' {
                    in_comment = false;
                    self.advance();
                    self.advance();
                } else if self.pos < self.len {
                    self.advance();
                } else {
                    return Err(Error::new(ErrorTag::UnterminatedComment, self.line));
                }
            }
        }
    }

    /// Scans an identifier or keyword token assuming the current
    /// character starts one.
    fn identifier(&mut self) -> (r: Result<Token, Error>)
        requires
            old(self).wf(),
            old(self).pos() < old(self).src().len(),
            is_alpha_char(old(self).src()[old(self).pos()]),
        ensures
            final(self).wf(),
            final(self).src() == old(self).src(),
            final(self).pos() == ident_end(old(self).src(), old(self).pos()),
            r matches Ok(t) && t@.kind == keyword_kind(
                old(self).src().subrange(old(self).pos(), ident_end(old(self).src(), old(self).pos())),
            ) && t@.line == line_at(old(self).src(), old(self).pos()),
    {
        let line = self.line;
        let start = self.pos;

        while self.peek_is_alnum()
            invariant
                self.wf(),
                self.src() == old(self).src(),
                start <= self.pos(),
                ident_end(self.src(), start as int) == ident_end(self.src(), self.pos()),
            decreases self.src().len() - self.pos(),
        {
            self.advance();
        }

        proof {
            lemma_ident_end_bounds(self.src(), start as int);
        }
        let lexeme = self.text.as_str().substring_char(start, self.pos).to_owned();

        let tag = if lexeme == "BEGIN".to_owned() {
            TokenTag::Begin
        } else if lexeme == "END".to_owned() {
            TokenTag::End
        } else if lexeme == "MODULE".to_owned() {
            TokenTag::Module
        } else if lexeme == "PROCEDURE".to_owned() {
            TokenTag::Procedure
        } else if lexeme == "RETURN".to_owned() {
            TokenTag::Return
        } else {
            TokenTag::Identifier(lexeme)
        };

        Ok(Token::new(tag, line))
    }

    /// Scans a number token assuming the current character is a digit.
    fn number(&mut self) -> (r: Result<Token, Error>)
        requires
            old(self).wf(),
            old(self).pos() < old(self).src().len(),
            is_digit_char(old(self).src()[old(self).pos()]),
        ensures
            final(self).wf(),
            final(self).src() == old(self).src(),
            final(self).pos() == digit_end(old(self).src(), old(self).pos()),
            r matches Ok(t) && t@.kind == TokenKindV::Integer(
                old(self).src().subrange(old(self).pos(), digit_end(old(self).src(), old(self).pos())),
            ) && t@.line == line_at(old(self).src(), old(self).pos()),
    {
        let line = self.line;
        let start = self.pos;

        while self.peek_is_digit()
            invariant
                self.wf(),
                self.src() == old(self).src(),
                start <= self.pos(),
                digit_end(self.src(), start as int) == digit_end(self.src(), self.pos()),
            decreases self.src().len() - self.pos(),
        {
            self.advance();
        }

        proof {
            lemma_digit_end_bounds(self.src(), start as int);
        }
        let lexeme = self.text.as_str().substring_char(start, self.pos).to_owned();

        Ok(Token::new(TokenTag::Integer(lexeme), line))
    }

    /// Scans a symbol token or the end of the source text.
    fn symbol(&mut self) -> (r: Result<Token, Error>)
        requires
            old(self).wf(),
        ensures
            final(self).wf(),
            final(self).src() == old(self).src(),
            match spec_symbol(old(self).src(), old(self).pos()) {
                Scanned::Tok { kind, line, end } => r matches Ok(t) && t@.kind == kind && t@.line
                    == line && final(self).pos() == end,
                Scanned::Fail { err, line, end } => r matches Err(e) && e@.tag == err && e@.line
                    == line && final(self).pos() == end,
            },
    {
        let line = self.line;

        if self.pos >= self.len {
            self.advance();
            return Ok(Token::new(TokenTag::Eof, line));
        }
        let c = self.text.as_str().get_char(self.pos);
        let tag = if c == ':' {
            TokenTag::Colon
        } else if c == '.' {
            TokenTag::Dot
        } else if c == ';' {
            TokenTag::Semicolon
        } else if c == '*' {
            TokenTag::Star
        } else {
            return Err(Error::new(ErrorTag::UnexpectedCharacter(c), self.line));
        };

        self.advance();

        Ok(Token::new(tag, line))
    }

    /// Whether the current character exists and is a letter or digit.
    fn peek_is_alnum(&self) -> (r: bool)
        requires
            self.wf(),
        ensures
            r == (self.pos() < self.src().len() && (is_alpha_char(self.src()[self.pos()])
                || is_digit_char(self.src()[self.pos()]))),
    {
        if self.pos < self.len {
            let c = self.text.as_str().get_char(self.pos);
            is_alpha(c) || is_digit(c)
        } else {
            false
        }
    }

    /// Whether the current character exists and is a digit.
    fn peek_is_digit(&self) -> (r: bool)
        requires
            self.wf(),
        ensures
            r == (self.pos() < self.src().len() && is_digit_char(self.src()[self.pos()])),
    {
        if self.pos < self.len {
            let c = self.text.as_str().get_char(self.pos);
            is_digit(c)
        } else {
            false
        }
    }
}

} // verus!
