//! Recursive-descent parser: consumes the token stream with one-token
//! lookahead and builds a module abstract syntax tree.
//!
//! Each parsing method is proved to follow the corresponding
//! specification function (`sp_module`, `sp_decl`, `sp_proc`, ...), which
//! together define the accepted grammar:
//!
//! ```text
//! Module   = "MODULE" Identifier ";" { Decl } "END" "." Eof .
//! Decl     = "PROCEDURE" ProcBody ";" .
//! ProcBody = Identifier [ "*" ] [ ":" Identifier ] ";" "END" .
//! ```

use vstd::prelude::*;

use crate::ast::{BuilderModule, BuilderProc, Decl, DeclV, Module, ModuleV, Proc, ProcV};
use crate::error::{Error, ErrorTag, ErrorTagV, ErrorV};
use crate::scanner::{Scanner, Scanned, Token, TokenKindV, TokenTag, TokenV, spec_scan};

verus! {

broadcast use crate::scanner::lemma_scanner_wf_bounds;

/// Result type for parsing functions.
pub type ResultParse<T> = Result<T, Error>;

/// The state a parsing step leaves behind: the value parsed, the
/// scanner's position, and the current (lookahead) token.
pub struct Step<T> {
    pub v: T,
    pub pos: int,
    pub cur: TokenV,
}

/// Fetching the next lookahead token: one scan from `pos`.
pub open spec fn sp_advance(src: Seq<char>, pos: int) -> Result<Step<()>, ErrorV> {
    match spec_scan(src, pos) {
        Scanned::Tok { kind, line, end } => Ok(
            Step { v: (), pos: end, cur: TokenV { kind, line } },
        ),
        Scanned::Fail { err, line, end } => Err(ErrorV { tag: err, line }),
    }
}

/// Consuming the current token when it has the wanted kind, and failing
/// with `ExpectedToken` at the current token's line otherwise.
pub open spec fn sp_expect(src: Seq<char>, pos: int, cur: TokenV, want: TokenKindV) -> Result<
    Step<()>,
    ErrorV,
> {
    if cur.kind == want {
        sp_advance(src, pos)
    } else {
        Err(ErrorV { tag: ErrorTagV::ExpectedToken { expected: want, got: cur.kind }, line: cur.line })
    }
}

/// Consuming the current token when it is an identifier, yielding its
/// text and line, and failing with `ExpectedIdentifier` otherwise.
pub open spec fn sp_expect_identifier(src: Seq<char>, pos: int, cur: TokenV) -> Result<
    Step<(Seq<char>, nat)>,
    ErrorV,
> {
    match cur.kind {
        TokenKindV::Identifier(name) => match sp_advance(src, pos) {
            Ok(s) => Ok(Step { v: (name, cur.line), pos: s.pos, cur: s.cur }),
            Err(e) => Err(e),
        },
        _ => Err(ErrorV { tag: ErrorTagV::ExpectedIdentifier { got: cur.kind }, line: cur.line }),
    }
}

/// Consuming the current token when it has the wanted kind (yielding
/// `true`), and leaving the state unchanged otherwise (yielding `false`).
pub open spec fn sp_is_match(src: Seq<char>, pos: int, cur: TokenV, want: TokenKindV) -> Result<
    Step<bool>,
    ErrorV,
> {
    if cur.kind == want {
        match sp_advance(src, pos) {
            Ok(s) => Ok(Step { v: true, pos: s.pos, cur: s.cur }),
            Err(e) => Err(e),
        }
    } else {
        Ok(Step { v: false, pos, cur })
    }
}

/// The trailing `";" "END"` of a procedure body, yielding the finished
/// declaration `p`.
pub open spec fn sp_proc_tail(src: Seq<char>, pos: int, cur: TokenV, p: ProcV) -> Result<
    Step<ProcV>,
    ErrorV,
> {
    match sp_expect(src, pos, cur, TokenKindV::Semicolon) {
        Err(e) => Err(e),
        Ok(s) => match sp_expect(src, s.pos, s.cur, TokenKindV::End) {
            Err(e) => Err(e),
            Ok(s2) => Ok(Step { v: p, pos: s2.pos, cur: s2.cur }),
        },
    }
}

/// A procedure body: `Identifier [ "*" ] [ ":" Identifier ] ";" "END"`.
pub open spec fn sp_proc(src: Seq<char>, pos: int, cur: TokenV) -> Result<Step<ProcV>, ErrorV> {
    match sp_expect_identifier(src, pos, cur) {
        Err(e) => Err(e),
        Ok(s1) => match sp_is_match(src, s1.pos, s1.cur, TokenKindV::Star) {
            Err(e) => Err(e),
            Ok(s2) => match sp_is_match(src, s2.pos, s2.cur, TokenKindV::Colon) {
                Err(e) => Err(e),
                Ok(s3) => if s3.v {
                    match sp_expect_identifier(src, s3.pos, s3.cur) {
                        Err(e) => Err(e),
                        Ok(s4) => sp_proc_tail(
                            src,
                            s4.pos,
                            s4.cur,
                            ProcV {
                                name: s1.v.0,
                                line: s1.v.1,
                                export: s2.v,
                                tid_return: Some(s4.v.0),
                            },
                        ),
                    }
                } else {
                    sp_proc_tail(
                        src,
                        s3.pos,
                        s3.cur,
                        ProcV { name: s1.v.0, line: s1.v.1, export: s2.v, tid_return: None },
                    )
                },
            },
        },
    }
}

/// One optional declaration: `Some` when the current token starts a
/// declaration, `None` (state unchanged) otherwise.
pub open spec fn sp_decl(src: Seq<char>, pos: int, cur: TokenV) -> Result<
    Step<Option<DeclV>>,
    ErrorV,
> {
    match sp_is_match(src, pos, cur, TokenKindV::Procedure) {
        Err(e) => Err(e),
        Ok(s1) => if s1.v {
            match sp_proc(src, s1.pos, s1.cur) {
                Err(e) => Err(e),
                Ok(s2) => match sp_expect(src, s2.pos, s2.cur, TokenKindV::Semicolon) {
                    Err(e) => Err(e),
                    Ok(s3) => Ok(
                        Step { v: Some(DeclV::Proc(s2.v)), pos: s3.pos, cur: s3.cur },
                    ),
                },
            }
        } else {
            Ok(Step { v: None, pos, cur })
        },
    }
}

/// One scan neither moves backward nor leaves the input, and moves
/// strictly forward whenever the token it yields is not `Eof`.
pub proof fn lemma_advance_bounds(src: Seq<char>, pos: int)
    requires
        0 <= pos <= src.len(),
    ensures
        sp_advance(src, pos) matches Ok(s) ==> pos <= s.pos <= src.len() && (s.cur.kind
            != TokenKindV::Eof ==> pos < s.pos),
{
    crate::scanner::lemma_skip_bounds(src, pos, false);
    match crate::scanner::spec_skip(src, pos, false) {
        Some(p) => {
            crate::scanner::lemma_ident_end_bounds(src, p);
            crate::scanner::lemma_digit_end_bounds(src, p);
        },
        None => {},
    }
}

/// `sp_expect` neither moves backward nor leaves the input.
pub proof fn lemma_expect_bounds(src: Seq<char>, pos: int, cur: TokenV, want: TokenKindV)
    requires
        0 <= pos <= src.len(),
    ensures
        sp_expect(src, pos, cur, want) matches Ok(s) ==> pos <= s.pos <= src.len(),
{
    lemma_advance_bounds(src, pos);
}

/// `sp_expect_identifier` neither moves backward nor leaves the input.
pub proof fn lemma_expect_identifier_bounds(src: Seq<char>, pos: int, cur: TokenV)
    requires
        0 <= pos <= src.len(),
    ensures
        sp_expect_identifier(src, pos, cur) matches Ok(s) ==> pos <= s.pos <= src.len(),
{
    lemma_advance_bounds(src, pos);
}

/// `sp_is_match` neither moves backward nor leaves the input.
pub proof fn lemma_is_match_bounds(src: Seq<char>, pos: int, cur: TokenV, want: TokenKindV)
    requires
        0 <= pos <= src.len(),
    ensures
        sp_is_match(src, pos, cur, want) matches Ok(s) ==> pos <= s.pos <= src.len(),
{
    lemma_advance_bounds(src, pos);
}

/// A successful procedure body parse neither moves backward nor leaves
/// the input.
pub proof fn lemma_proc_bounds(src: Seq<char>, pos: int, cur: TokenV)
    requires
        0 <= pos <= src.len(),
    ensures
        sp_proc(src, pos, cur) matches Ok(s) ==> pos <= s.pos <= src.len(),
{
    lemma_expect_identifier_bounds(src, pos, cur);
    match sp_expect_identifier(src, pos, cur) {
        Err(_) => {},
        Ok(s1) => {
            lemma_is_match_bounds(src, s1.pos, s1.cur, TokenKindV::Star);
            match sp_is_match(src, s1.pos, s1.cur, TokenKindV::Star) {
                Err(_) => {},
                Ok(s2) => {
                    lemma_is_match_bounds(src, s2.pos, s2.cur, TokenKindV::Colon);
                    match sp_is_match(src, s2.pos, s2.cur, TokenKindV::Colon) {
                        Err(_) => {},
                        Ok(s3) => {
                            if s3.v {
                                lemma_expect_identifier_bounds(src, s3.pos, s3.cur);
                                match sp_expect_identifier(src, s3.pos, s3.cur) {
                                    Err(_) => {},
                                    Ok(s4) => {
                                        lemma_proc_tail_bounds(
                                            src,
                                            s4.pos,
                                            s4.cur,
                                            ProcV {
                                                name: s1.v.0,
                                                line: s1.v.1,
                                                export: s2.v,
                                                tid_return: Some(s4.v.0),
                                            },
                                        );
                                    },
                                }
                            } else {
                                lemma_proc_tail_bounds(
                                    src,
                                    s3.pos,
                                    s3.cur,
                                    ProcV {
                                        name: s1.v.0,
                                        line: s1.v.1,
                                        export: s2.v,
                                        tid_return: None,
                                    },
                                );
                            }
                        },
                    }
                },
            }
        },
    }
}

/// The trailing `";" "END"` neither moves backward nor leaves the input.
pub proof fn lemma_proc_tail_bounds(src: Seq<char>, pos: int, cur: TokenV, p: ProcV)
    requires
        0 <= pos <= src.len(),
    ensures
        sp_proc_tail(src, pos, cur, p) matches Ok(s) ==> pos <= s.pos <= src.len(),
{
    lemma_expect_bounds(src, pos, cur, TokenKindV::Semicolon);
    match sp_expect(src, pos, cur, TokenKindV::Semicolon) {
        Err(_) => {},
        Ok(s) => {
            lemma_expect_bounds(src, s.pos, s.cur, TokenKindV::End);
        },
    }
}

/// A successful `sp_decl` never leaves the input; when it yields a
/// declaration it moves strictly forward, and when it yields `None` it
/// leaves the state unchanged.
pub proof fn lemma_decl_bounds(src: Seq<char>, pos: int, cur: TokenV)
    requires
        0 <= pos <= src.len(),
    ensures
        sp_decl(src, pos, cur) matches Ok(s) ==> pos <= s.pos <= src.len() && (s.v is Some ==> pos
            < s.pos) && (s.v is None ==> s.pos == pos && s.cur == cur),
{
    lemma_is_match_bounds(src, pos, cur, TokenKindV::Procedure);
    if cur.kind == TokenKindV::Procedure {
        lemma_advance_bounds(src, pos);
        match sp_advance(src, pos) {
            Err(_) => {},
            Ok(s1) => {
                lemma_proc_bounds(src, s1.pos, s1.cur);
                match sp_proc(src, s1.pos, s1.cur) {
                    Err(_) => {},
                    Ok(s2) => {
                        lemma_expect_bounds(src, s2.pos, s2.cur, TokenKindV::Semicolon);
                        // A successful procedure parse starts by consuming an
                        // identifier token, which cannot be Eof, so the scan
                        // that produced it moved strictly forward.
                        assert(s1.cur.kind matches TokenKindV::Identifier(_));
                        assert(pos < s1.pos);
                    },
                }
            },
        }
    }
}

/// The declaration list `{ Decl }`: parses declarations while the
/// current token starts one.
pub open spec fn sp_decls(src: Seq<char>, pos: int, cur: TokenV) -> Result<
    Step<Seq<DeclV>>,
    ErrorV,
>
    decreases src.len() - pos,
    when 0 <= pos <= src.len()
{
    match sp_decl(src, pos, cur) {
        Err(e) => Err(e),
        Ok(s) => match s.v {
            None => Ok(Step { v: Seq::empty(), pos: s.pos, cur: s.cur }),
            Some(d) => {
                proof {
                    lemma_decl_bounds(src, pos, cur);
                }
                match sp_decls(src, s.pos, s.cur) {
                    Err(e) => Err(e),
                    Ok(s2) => Ok(Step { v: seq![d] + s2.v, pos: s2.pos, cur: s2.cur }),
                }
            },
        },
    }
}

/// A whole compilation unit:
/// `"MODULE" Identifier ";" { Decl } "END" "." Eof`.
pub open spec fn sp_module(src: Seq<char>, pos: int, cur: TokenV) -> Result<
    Step<ModuleV>,
    ErrorV,
> {
    match sp_expect(src, pos, cur, TokenKindV::Module) {
        Err(e) => Err(e),
        Ok(s1) => match sp_expect_identifier(src, s1.pos, s1.cur) {
            Err(e) => Err(e),
            Ok(s2) => match sp_expect(src, s2.pos, s2.cur, TokenKindV::Semicolon) {
                Err(e) => Err(e),
                Ok(s3) => match sp_decls(src, s3.pos, s3.cur) {
                    Err(e) => Err(e),
                    Ok(s4) => match sp_expect(src, s4.pos, s4.cur, TokenKindV::End) {
                        Err(e) => Err(e),
                        Ok(s5) => match sp_expect(src, s5.pos, s5.cur, TokenKindV::Dot) {
                            Err(e) => Err(e),
                            Ok(s6) => match sp_expect(src, s6.pos, s6.cur, TokenKindV::Eof) {
                                Err(e) => Err(e),
                                Ok(s7) => Ok(
                                    Step {
                                        v: ModuleV { name: s2.v.0, decls: s4.v },
                                        pos: s7.pos,
                                        cur: s7.cur,
                                    },
                                ),
                            },
                        },
                    },
                },
            },
        },
    }
}

/// Holds the state of a parser.
pub struct Parser {
    /// A source text scanner.
    scanner: Scanner,

    /// Current token in the source code.
    current: Token,
}

impl Parser {
    /// The source text being parsed, as a character sequence.
    pub closed spec fn src(&self) -> Seq<char> {
        self.scanner.src()
    }

    /// The scanner's position after the current token.
    pub closed spec fn pos(&self) -> int {
        self.scanner.pos()
    }

    /// The current (lookahead) token.
    pub closed spec fn cur(&self) -> TokenV {
        self.current@
    }

    /// Internal consistency of the underlying scanner.
    pub closed spec fn wf(&self) -> bool {
        self.scanner.wf()
    }

    /// Constructs a Parser for a source text, pre-fetching the first
    /// token.
    pub fn new(source: &str) -> (r: Result<Parser, Error>)
        requires
            source@.len() < usize::MAX,
        ensures
            match sp_advance(source@, 0) {
                Ok(s) => r matches Ok(p) && p.wf() && p.src() == source@ && p.pos() == s.pos
                    && p.cur() == s.cur,
                Err(e) => r matches Err(err) && err@ == e,
            },
    {
        let mut scanner = Scanner::new(source);
        let current = match scanner.next_token() {
            Err(e) => {
                return Err(e);
            },
            Ok(t) => t,
        };
        Ok(Parser { scanner, current })
    }

    /// Parses a module.
    pub fn module(&mut self) -> (r: ResultParse<Module>)
        requires
            old(self).wf(),
        ensures
            final(self).wf(),
            final(self).src() == old(self).src(),
            match sp_module(old(self).src(), old(self).pos(), old(self).cur()) {
                Ok(s) => r matches Ok(m) && m@ == s.v && final(self).pos() == s.pos && final(self).cur() == s.cur,
                Err(e) => r matches Err(err) && err@ == e,
            },
    {
        let mut builder_module = BuilderModule::new();

        // "module"
        self.expect(TokenTag::Module)?;

        // Id
        let (name, _) = self.expect_identifier()?;
        builder_module.set_name(&name);

        // ";"
        self.expect(TokenTag::Semicolon)?;

        let ghost pos3 = self.pos();
        let ghost cur3 = self.cur();

        // { Decl }
        loop
            invariant
                self.wf(),
                self.src() == old(self).src(),
                0 <= pos3 <= self.src().len(),
                0 <= self.pos() <= self.src().len(),
                builder_module@.name == name@,
                match sp_decls(self.src(), self.pos(), self.cur()) {
                    Ok(s) => sp_decls(self.src(), pos3, cur3) == Ok::<Step<Seq<DeclV>>, ErrorV>(
                        Step { v: builder_module@.decls + s.v, pos: s.pos, cur: s.cur },
                    ),
                    Err(e) => sp_decls(self.src(), pos3, cur3) == Err::<Step<Seq<DeclV>>, ErrorV>(
                        e,
                    ),
                },
                sp_module(old(self).src(), old(self).pos(), old(self).cur()) == (match sp_decls(
                    self.src(),
                    pos3,
                    cur3,
                ) {
                    Err(e) => Err::<Step<ModuleV>, ErrorV>(e),
                    Ok(s4) => match sp_expect(self.src(), s4.pos, s4.cur, TokenKindV::End) {
                        Err(e) => Err(e),
                        Ok(s5) => match sp_expect(self.src(), s5.pos, s5.cur, TokenKindV::Dot) {
                            Err(e) => Err(e),
                            Ok(s6) => match sp_expect(self.src(), s6.pos, s6.cur, TokenKindV::Eof) {
                                Err(e) => Err(e),
                                Ok(s7) => Ok(
                                    Step {
                                        v: ModuleV { name: name@, decls: s4.v },
                                        pos: s7.pos,
                                        cur: s7.cur,
                                    },
                                ),
                            },
                        },
                    },
                }),
            decreases self.src().len() - self.pos(),
        {
            let ghost pre_pos = self.pos();
            let ghost pre_cur = self.cur();
            proof {
                lemma_decl_bounds(self.src(), pre_pos, pre_cur);
            }
            let d = match self.decl() {
                Err(e) => {
                    return Err(e);
                },
                Ok(d) => d,
            };
            match d {
                Some(decl) => {
                    let ghost acc = builder_module@.decls;
                    let ghost dv = decl@;
                    builder_module.add_decl(decl);
                    proof {
                        if let Ok(s2) = sp_decls(self.src(), self.pos(), self.cur()) {
                            assert((acc + (seq![dv] + s2.v)) =~= (acc.push(dv) + s2.v));
                        }
                    }
                },
                None => {
                    proof {
                        assert(builder_module@.decls + Seq::<DeclV>::empty()
                            =~= builder_module@.decls);
                    }
                    // "end"
                    self.expect(TokenTag::End)?;

                    // "."
                    self.expect(TokenTag::Dot)?;

                    // EOF
                    self.expect(TokenTag::Eof)?;

                    return Ok(builder_module.build());
                },
            }
        }
    }

    /// Parses a declaration, if the current token starts one.
    pub fn decl(&mut self) -> (r: ResultParse<Option<Decl>>)
        requires
            old(self).wf(),
        ensures
            final(self).wf(),
            final(self).src() == old(self).src(),
            match sp_decl(old(self).src(), old(self).pos(), old(self).cur()) {
                Ok(s) => r matches Ok(d) && (match d {
                    Some(dd) => s.v == Some(dd@),
                    None => s.v is None,
                }) && final(self).pos() == s.pos && final(self).cur() == s.cur,
                Err(e) => r matches Err(err) && err@ == e,
            },
    {
        let decl = if self.is_match(TokenTag::Procedure)? {
            // Proc
            let proc = self.proc()?;

            // ";"
            self.expect(TokenTag::Semicolon)?;

            Some(Decl::Proc(proc))
        } else {
            None
        };

        Ok(decl)
    }

    /// Parses a procedure body; the `PROCEDURE` keyword was the previous
    /// token.
    pub fn proc(&mut self) -> (r: ResultParse<Proc>)
        requires
            old(self).wf(),
        ensures
            final(self).wf(),
            final(self).src() == old(self).src(),
            match sp_proc(old(self).src(), old(self).pos(), old(self).cur()) {
                Ok(s) => r matches Ok(p) && p@ == s.v && final(self).pos() == s.pos && final(self).cur() == s.cur,
                Err(e) => r matches Err(err) && err@ == e,
            },
    {
        let mut builder = BuilderProc::new();

        // Id ["*"]
        let (name, line) = self.expect_identifier()?;
        let export = self.is_match(TokenTag::Star)?;
        builder.set_name(&name, line).set_export(export);

        if self.is_match(TokenTag::Colon)? {
            let (name, _) = self.expect_identifier()?;
            builder.set_tid_return(&name);
        }

        // ";"
        self.expect(TokenTag::Semicolon)?;

        // "end"
        self.expect(TokenTag::End)?;

        Ok(builder.build())
    }

    /// Make sure the current token has the given tag, or else generate an
    /// error.
    fn expect(&mut self, expected: TokenTag) -> (r: Result<(), Error>)
        requires
            old(self).wf(),
        ensures
            final(self).wf(),
            final(self).src() == old(self).src(),
            match sp_expect(old(self).src(), old(self).pos(), old(self).cur(), expected@) {
                Ok(s) => r is Ok && final(self).pos() == s.pos && final(self).cur() == s.cur,
                Err(e) => r matches Err(err) && err@ == e,
            },
    {
        if self.current.tag == expected {
            self.advance()?;
            Ok(())
        } else {
            self.err_current(ErrorTag::ExpectedToken {
                expected,
                got: self.current.tag.clone(),
            })
        }
    }

    /// If the current token is an identifier, return the identifier name
    /// and line number. Otherwise, return an error.
    fn expect_identifier(&mut self) -> (r: Result<(String, usize), Error>)
        requires
            old(self).wf(),
        ensures
            final(self).wf(),
            final(self).src() == old(self).src(),
            match sp_expect_identifier(old(self).src(), old(self).pos(), old(self).cur()) {
                Ok(s) => r matches Ok((name, line)) && name@ == s.v.0 && line as nat == s.v.1
                    && final(self).pos() == s.pos && final(self).cur() == s.cur,
                Err(e) => r matches Err(err) && err@ == e,
            },
    {
        match &self.current {
            Token { tag: TokenTag::Identifier(name), line } => {
                let name = name.clone();
                let line = *line;
                self.advance()?;
                Ok((name, line))
            },
            _ => {
                let got = self.current.tag.clone();
                self.err_current(ErrorTag::ExpectedIdentifier { got })
            },
        }
    }

    /// If the current token matches the given tag, advance and return
    /// true. Otherwise, do nothing and return false.
    fn is_match(&mut self, tag: TokenTag) -> (r: Result<bool, Error>)
        requires
            old(self).wf(),
        ensures
            final(self).wf(),
            final(self).src() == old(self).src(),
            match sp_is_match(old(self).src(), old(self).pos(), old(self).cur(), tag@) {
                Ok(s) => r matches Ok(b) && b == s.v && final(self).pos() == s.pos && final(self).cur() == s.cur,
                Err(e) => r matches Err(err) && err@ == e,
            },
    {
        if self.current.tag == tag {
            self.advance()?;
            Ok(true)
        } else {
            Ok(false)
        }
    }

    /// Sets current token to the next token in the source text.
    fn advance(&mut self) -> (r: Result<(), Error>)
        requires
            old(self).wf(),
        ensures
            final(self).wf(),
            final(self).src() == old(self).src(),
            match sp_advance(old(self).src(), old(self).pos()) {
                Ok(s) => r is Ok && final(self).pos() == s.pos && final(self).cur() == s.cur,
                Err(e) => r matches Err(err) && err@ == e,
            },
    {
        self.current = self.scanner.next_token()?;
        Ok(())
    }

    /// The current (lookahead) token.
    pub fn current(&self) -> (t: &Token)
        ensures
            t@ == self.cur(),
    {
        &self.current
    }

    /// Creates an error result for the current token.
    fn err_current<T>(&self, tag: ErrorTag) -> (r: Result<T, Error>)
        ensures
            r matches Err(e) && e@ == (ErrorV { tag: tag@, line: self.cur().line }),
    {
        Err(Error::new(tag, self.current.line))
    }
}

} // verus!
