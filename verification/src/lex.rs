//! The tokens that the parser reads, and the cursor through which it reads
//! them.  A token stream is a sequence of tokens followed by how the input
//! ends: with an end-of-input token, or with a lexical error.
use vstd::prelude::*;

verus! {

/// The kinds of token.
#[derive(Debug, Clone, Copy, PartialEq, Eq, Structural)]
pub enum Tok {
    Not,
    BNot,
    PlusPlus,
    MinusMinus,
    Minus,
    Plus,
    Await,
    Delete,
    TypeOf,
    Void,
    Eq,
    LT,
    GT,
    LTE,
    GTE,
    EqEq,
    NEq,
    EqEqEq,
    NEqEq,
    Star,
    Percent,
    StarStar,
    LTLT,
    GTGT,
    GTGTGT,
    BAnd,
    BOr,
    Xor,
    AndAnd,
    OrOr,
    PlusEq,
    MinusEq,
    StarEq,
    PercentEq,
    StarStarEq,
    LTLTEq,
    GTGTEq,
    GTGTGTEq,
    AndEq,
    OrEq,
    CaratEq,
    Div,
    DivEq,
    Comma,
    In,
    InstanceOf,
    LParen,
    RParen,
    LSquare,
    RSquare,
    LBrace,
    RBrace,
    Semi,
    Colon,
    Question,
    Dot,
    Arrow,
    Ident,
    Number,
    String,
    This,
    Function,
    Class,
    Extends,
    New,
    Var,
    Let,
    Const,
    If,
    Else,
    While,
    Do,
    For,
    Switch,
    Case,
    Default,
    Break,
    Continue,
    Return,
    Throw,
    Try,
    Catch,
    Finally,
    EOF,
}

/// The name of a token kind, as its debug form prints it.
pub open spec fn tok_name(t: Tok) -> Seq<char> {
    match t {
        Tok::Not => "Not"@,
        Tok::BNot => "BNot"@,
        Tok::PlusPlus => "PlusPlus"@,
        Tok::MinusMinus => "MinusMinus"@,
        Tok::Minus => "Minus"@,
        Tok::Plus => "Plus"@,
        Tok::Await => "Await"@,
        Tok::Delete => "Delete"@,
        Tok::TypeOf => "TypeOf"@,
        Tok::Void => "Void"@,
        Tok::Eq => "Eq"@,
        Tok::LT => "LT"@,
        Tok::GT => "GT"@,
        Tok::LTE => "LTE"@,
        Tok::GTE => "GTE"@,
        Tok::EqEq => "EqEq"@,
        Tok::NEq => "NEq"@,
        Tok::EqEqEq => "EqEqEq"@,
        Tok::NEqEq => "NEqEq"@,
        Tok::Star => "Star"@,
        Tok::Percent => "Percent"@,
        Tok::StarStar => "StarStar"@,
        Tok::LTLT => "LTLT"@,
        Tok::GTGT => "GTGT"@,
        Tok::GTGTGT => "GTGTGT"@,
        Tok::BAnd => "BAnd"@,
        Tok::BOr => "BOr"@,
        Tok::Xor => "Xor"@,
        Tok::AndAnd => "AndAnd"@,
        Tok::OrOr => "OrOr"@,
        Tok::PlusEq => "PlusEq"@,
        Tok::MinusEq => "MinusEq"@,
        Tok::StarEq => "StarEq"@,
        Tok::PercentEq => "PercentEq"@,
        Tok::StarStarEq => "StarStarEq"@,
        Tok::LTLTEq => "LTLTEq"@,
        Tok::GTGTEq => "GTGTEq"@,
        Tok::GTGTGTEq => "GTGTGTEq"@,
        Tok::AndEq => "AndEq"@,
        Tok::OrEq => "OrEq"@,
        Tok::CaratEq => "CaratEq"@,
        Tok::Div => "Div"@,
        Tok::DivEq => "DivEq"@,
        Tok::Comma => "Comma"@,
        Tok::In => "In"@,
        Tok::InstanceOf => "InstanceOf"@,
        Tok::LParen => "LParen"@,
        Tok::RParen => "RParen"@,
        Tok::LSquare => "LSquare"@,
        Tok::RSquare => "RSquare"@,
        Tok::LBrace => "LBrace"@,
        Tok::RBrace => "RBrace"@,
        Tok::Semi => "Semi"@,
        Tok::Colon => "Colon"@,
        Tok::Question => "Question"@,
        Tok::Dot => "Dot"@,
        Tok::Arrow => "Arrow"@,
        Tok::Ident => "Ident"@,
        Tok::Number => "Number"@,
        Tok::String => "String"@,
        Tok::This => "This"@,
        Tok::Function => "Function"@,
        Tok::Class => "Class"@,
        Tok::Extends => "Extends"@,
        Tok::New => "New"@,
        Tok::Var => "Var"@,
        Tok::Let => "Let"@,
        Tok::Const => "Const"@,
        Tok::If => "If"@,
        Tok::Else => "Else"@,
        Tok::While => "While"@,
        Tok::Do => "Do"@,
        Tok::For => "For"@,
        Tok::Switch => "Switch"@,
        Tok::Case => "Case"@,
        Tok::Default => "Default"@,
        Tok::Break => "Break"@,
        Tok::Continue => "Continue"@,
        Tok::Return => "Return"@,
        Tok::Throw => "Throw"@,
        Tok::Try => "Try"@,
        Tok::Catch => "Catch"@,
        Tok::Finally => "Finally"@,
        Tok::EOF => "EOF"@,
    }
}

/// How a token of a fixed spelling is written in the source: an operator,
/// a punctuator or a reserved word.  Names, literals and the end of the
/// input have no fixed spelling, and give the empty text.
pub open spec fn tok_spelling(t: Tok) -> Seq<char> {
    match t {
        Tok::Not => "!"@,
        Tok::BNot => "~"@,
        Tok::PlusPlus => "++"@,
        Tok::MinusMinus => "--"@,
        Tok::Minus => "-"@,
        Tok::Plus => "+"@,
        Tok::Await => "await"@,
        Tok::Delete => "delete"@,
        Tok::TypeOf => "typeof"@,
        Tok::Void => "void"@,
        Tok::Eq => "="@,
        Tok::LT => "<"@,
        Tok::GT => ">"@,
        Tok::LTE => "<="@,
        Tok::GTE => ">="@,
        Tok::EqEq => "=="@,
        Tok::NEq => "!="@,
        Tok::EqEqEq => "==="@,
        Tok::NEqEq => "!=="@,
        Tok::Star => "*"@,
        Tok::Percent => "%"@,
        Tok::StarStar => "**"@,
        Tok::LTLT => "<<"@,
        Tok::GTGT => ">>"@,
        Tok::GTGTGT => ">>>"@,
        Tok::BAnd => "&"@,
        Tok::BOr => "|"@,
        Tok::Xor => "^"@,
        Tok::AndAnd => "&&"@,
        Tok::OrOr => "||"@,
        Tok::PlusEq => "+="@,
        Tok::MinusEq => "-="@,
        Tok::StarEq => "*="@,
        Tok::PercentEq => "%="@,
        Tok::StarStarEq => "**="@,
        Tok::LTLTEq => "<<="@,
        Tok::GTGTEq => ">>="@,
        Tok::GTGTGTEq => ">>>="@,
        Tok::AndEq => "&="@,
        Tok::OrEq => "|="@,
        Tok::CaratEq => "^="@,
        Tok::Div => "/"@,
        Tok::DivEq => "/="@,
        Tok::Comma => ","@,
        Tok::In => "in"@,
        Tok::InstanceOf => "instanceof"@,
        Tok::LParen => "("@,
        Tok::RParen => ")"@,
        Tok::LSquare => "["@,
        Tok::RSquare => "]"@,
        Tok::LBrace => "{"@,
        Tok::RBrace => "}"@,
        Tok::Semi => ";"@,
        Tok::Colon => ":"@,
        Tok::Question => "?"@,
        Tok::Dot => "."@,
        Tok::Arrow => "=>"@,
        Tok::This => "this"@,
        Tok::Function => "function"@,
        Tok::Class => "class"@,
        Tok::Extends => "extends"@,
        Tok::New => "new"@,
        Tok::Var => "var"@,
        Tok::Let => "let"@,
        Tok::Const => "const"@,
        Tok::If => "if"@,
        Tok::Else => "else"@,
        Tok::While => "while"@,
        Tok::Do => "do"@,
        Tok::For => "for"@,
        Tok::Switch => "switch"@,
        Tok::Case => "case"@,
        Tok::Default => "default"@,
        Tok::Break => "break"@,
        Tok::Continue => "continue"@,
        Tok::Return => "return"@,
        Tok::Throw => "throw"@,
        Tok::Try => "try"@,
        Tok::Catch => "catch"@,
        Tok::Finally => "finally"@,
        _ => Seq::empty(),
    }
}

/// Whether a token kind is a reserved word.
pub open spec fn is_keyword(t: Tok) -> bool {
    match t {
        Tok::Await | Tok::Delete | Tok::TypeOf | Tok::Void | Tok::In | Tok::InstanceOf | Tok::This | Tok::Function | Tok::Class | Tok::Extends | Tok::New | Tok::Var | Tok::Let | Tok::Const | Tok::If | Tok::Else | Tok::While | Tok::Do | Tok::For | Tok::Switch | Tok::Case | Tok::Default | Tok::Break | Tok::Continue | Tok::Return | Tok::Throw | Tok::Try | Tok::Catch | Tok::Finally => true,
        _ => false,
    }
}

impl Tok {
    /// Whether this token kind is a reserved word (these may still name an
    /// object property or a member).
    pub fn is_kw(&self) -> (b: bool)
        ensures
            b == is_keyword(*self),
    {
        match self {
            Tok::Await | Tok::Delete | Tok::TypeOf | Tok::Void | Tok::In | Tok::InstanceOf | Tok::This | Tok::Function | Tok::Class | Tok::Extends | Tok::New | Tok::Var | Tok::Let | Tok::Const | Tok::If | Tok::Else | Tok::While | Tok::Do | Tok::For | Tok::Switch | Tok::Case | Tok::Default | Tok::Break | Tok::Continue | Tok::Return | Tok::Throw | Tok::Try | Tok::Catch | Tok::Finally => true,
            _ => false,
        }
    }

    /// The name of this token kind.
    pub fn name(&self) -> (s: &'static str)
            ensures
                s@ == tok_name(*self),
        {
            match self {
                Tok::Not => "Not",
                Tok::BNot => "BNot",
                Tok::PlusPlus => "PlusPlus",
                Tok::MinusMinus => "MinusMinus",
                Tok::Minus => "Minus",
                Tok::Plus => "Plus",
                Tok::Await => "Await",
                Tok::Delete => "Delete",
                Tok::TypeOf => "TypeOf",
                Tok::Void => "Void",
                Tok::Eq => "Eq",
                Tok::LT => "LT",
                Tok::GT => "GT",
                Tok::LTE => "LTE",
                Tok::GTE => "GTE",
                Tok::EqEq => "EqEq",
                Tok::NEq => "NEq",
                Tok::EqEqEq => "EqEqEq",
                Tok::NEqEq => "NEqEq",
                Tok::Star => "Star",
                Tok::Percent => "Percent",
                Tok::StarStar => "StarStar",
                Tok::LTLT => "LTLT",
                Tok::GTGT => "GTGT",
                Tok::GTGTGT => "GTGTGT",
                Tok::BAnd => "BAnd",
                Tok::BOr => "BOr",
                Tok::Xor => "Xor",
                Tok::AndAnd => "AndAnd",
                Tok::OrOr => "OrOr",
                Tok::PlusEq => "PlusEq",
                Tok::MinusEq => "MinusEq",
                Tok::StarEq => "StarEq",
                Tok::PercentEq => "PercentEq",
                Tok::StarStarEq => "StarStarEq",
                Tok::LTLTEq => "LTLTEq",
                Tok::GTGTEq => "GTGTEq",
                Tok::GTGTGTEq => "GTGTGTEq",
                Tok::AndEq => "AndEq",
                Tok::OrEq => "OrEq",
                Tok::CaratEq => "CaratEq",
                Tok::Div => "Div",
                Tok::DivEq => "DivEq",
                Tok::Comma => "Comma",
                Tok::In => "In",
                Tok::InstanceOf => "InstanceOf",
                Tok::LParen => "LParen",
                Tok::RParen => "RParen",
                Tok::LSquare => "LSquare",
                Tok::RSquare => "RSquare",
                Tok::LBrace => "LBrace",
                Tok::RBrace => "RBrace",
                Tok::Semi => "Semi",
                Tok::Colon => "Colon",
                Tok::Question => "Question",
                Tok::Dot => "Dot",
                Tok::Arrow => "Arrow",
                Tok::Ident => "Ident",
                Tok::Number => "Number",
                Tok::String => "String",
                Tok::This => "This",
                Tok::Function => "Function",
                Tok::Class => "Class",
                Tok::Extends => "Extends",
                Tok::New => "New",
                Tok::Var => "Var",
                Tok::Let => "Let",
                Tok::Const => "Const",
                Tok::If => "If",
                Tok::Else => "Else",
                Tok::While => "While",
                Tok::Do => "Do",
                Tok::For => "For",
                Tok::Switch => "Switch",
                Tok::Case => "Case",
                Tok::Default => "Default",
                Tok::Break => "Break",
                Tok::Continue => "Continue",
                Tok::Return => "Return",
                Tok::Throw => "Throw",
                Tok::Try => "Try",
                Tok::Catch => "Catch",
                Tok::Finally => "Finally",
                Tok::EOF => "EOF",
            }
        }
}

/// A range of byte offsets in the source.
#[derive(Debug, Clone, Copy, PartialEq, Eq, Structural)]
pub struct Span {
    pub start: usize,
    pub end: usize,
}

impl Span {
    pub fn new(start: usize, end: usize) -> (s: Span)
        ensures
            s == (Span { start, end }),
    {
        Span { start, end }
    }
}

/// The value a literal token carries: the decoded contents of a string
/// literal, or the source text of a numeric literal.
#[derive(Debug)]
pub enum TokData {
    NoData,
    String(String),
    Number(String),
}

impl TokData {
    pub fn copy(&self) -> (r: TokData)
        ensures
            r == *self,
    {
        match self {
            TokData::NoData => TokData::NoData,
            TokData::String(s) => TokData::String(s.clone()),
            TokData::Number(s) => TokData::Number(s.clone()),
        }
    }
}

/// One token: its kind, where it lies, its source text, its literal value,
/// and whether a line break came before it.
#[derive(Debug)]
pub struct Token {
    pub tok: Tok,
    pub span: Span,
    pub text: String,
    pub data: TokData,
    pub saw_newline: bool,
}

impl Token {
    pub fn copy(&self) -> (r: Token)
        ensures
            r == *self,
    {
        Token {
            tok: self.tok,
            span: self.span,
            text: self.text.clone(),
            data: self.data.copy(),
            saw_newline: self.saw_newline,
        }
    }
}

/// A lexical error: a message and the offset where it was found.
#[derive(Debug)]
pub struct LexError {
    pub msg: String,
    pub pos: usize,
}

impl LexError {
    pub fn copy(&self) -> (r: LexError)
        ensures
            r == *self,
    {
        LexError { msg: self.msg.clone(), pos: self.pos }
    }
}

/// A token that may stand before the end of the stream: not the end marker,
/// and a literal carries its value.
pub open spec fn token_wf(t: Token) -> bool {
    &&& t.tok != Tok::EOF
    &&& t.tok == Tok::String ==> t.data is String
    &&& t.tok == Tok::Number ==> t.data is Number
}

/// A cursor over a token stream: the tokens, how the stream ends, and the
/// index of the next token to read.
#[derive(Debug)]
pub struct Lexer {
    pub tokens: Vec<Token>,
    pub end: Result<Token, LexError>,
    pub pos: usize,
}

/// What reading from `l` gives, and the cursor afterwards: the next token,
/// or, once the tokens are used up, the end of the stream, again and again.
pub open spec fn read_next(l: Lexer) -> (Lexer, Result<Token, LexError>) {
    if l.pos < l.tokens.len() {
        (Lexer { pos: (l.pos + 1) as usize, ..l }, Ok(l.tokens@[l.pos as int]))
    } else {
        (l, l.end)
    }
}

/// The kind of the token that reading from `l` would give.
pub open spec fn peek_next(l: Lexer) -> Result<Tok, LexError> {
    match read_next(l).1 {
        Ok(t) => Ok(t.tok),
        Err(e) => Err(e),
    }
}

/// The cursor after giving back the token `t` that was just read from it.
/// The end marker is never consumed, so giving it back changes nothing.
pub open spec fn put_back(l: Lexer, t: Token) -> Lexer {
    if t.tok != Tok::EOF && l.pos > 0 {
        Lexer { pos: (l.pos - 1) as usize, ..l }
    } else {
        l
    }
}

/// Reading gives the tokens in order, one per read, moving the cursor on by
/// one; once they are used up it gives how the stream ends, every time,
/// and the cursor stays.
pub proof fn lemma_read_in_order(l: Lexer)
    requires
        l.wf(),
    ensures
        l.pos < l.tokens.len() ==> read_next(l).1 == Ok::<Token, LexError>(l.tokens@[l.pos as int])
            && read_next(l).0.pos == l.pos + 1 && read_next(l).0.tokens == l.tokens
            && read_next(l).0.end == l.end,
        l.pos == l.tokens.len() ==> read_next(l) == (l, l.end),
        read_next(l).0.wf(),
{
}

/// Giving back the token just read leaves the cursor where it was before the
/// read, so the next read gives that token again.
pub proof fn lemma_back_undoes_read(l: Lexer)
    requires
        l.wf(),
        read_next(l).1 is Ok,
    ensures
        put_back(read_next(l).0, read_next(l).1->Ok_0) == l,
        read_next(put_back(read_next(l).0, read_next(l).1->Ok_0)) == read_next(l),
        peek_next(put_back(read_next(l).0, read_next(l).1->Ok_0)) == Ok::<Tok, LexError>(
            read_next(l).1->Ok_0.tok,
        ),
{
}

impl Lexer {
    /// Every token before the end is well formed, the stream ends with an end
    /// marker or an error, and the cursor lies within the tokens.
    pub open spec fn wf(self) -> bool {
        &&& self.pos <= self.tokens.len()
        &&& forall|i: int| 0 <= i < self.tokens.len() ==> token_wf(#[trigger] self.tokens@[i])
        &&& match self.end {
            Ok(t) => t.tok == Tok::EOF,
            Err(e) => e.pos < usize::MAX,
        }
    }

    /// How many tokens are left before the end of the stream.
    pub open spec fn rem(self) -> nat {
        if self.pos <= self.tokens.len() {
            (self.tokens.len() - self.pos) as nat
        } else {
            0
        }
    }

    /// A cursor at the start of the stream, if the stream is well formed.
    pub fn new(tokens: Vec<Token>, end: Result<Token, LexError>) -> (r: Option<Lexer>)
        ensures
            r is Some <==> (Lexer { tokens, end, pos: 0 }).wf(),
            r matches Some(l) ==> l == (Lexer { tokens, end, pos: 0 }),
    {
        let ok_end = match &end {
            Ok(t) => t.tok == Tok::EOF,
            Err(e) => e.pos < usize::MAX,
        };
        if !ok_end {
            return None;
        }
        let mut i: usize = 0;
        while i < tokens.len()
            invariant
                i <= tokens.len(),
                forall|j: int| 0 <= j < i ==> token_wf(#[trigger] tokens@[j]),
            decreases tokens.len() - i,
        {
            let t = &tokens[i];
            let ok = t.tok != Tok::EOF && match t.tok {
                Tok::String => matches!(t.data, TokData::String(_)),
                Tok::Number => matches!(t.data, TokData::Number(_)),
                _ => true,
            };
            if !ok {
                assert(!token_wf(tokens@[i as int]));
                return None;
            }
            i = i + 1;
        }
        Some(Lexer { tokens, end, pos: 0 })
    }

    /// Reads the next token.
    pub fn read(&mut self) -> (r: Result<Token, LexError>)
        requires
            old(self).wf(),
        ensures
            (*final(self), r) == read_next(*old(self)),
            final(self).wf(),
    {
        if self.pos < self.tokens.len() {
            let t = self.tokens[self.pos].copy();
            self.pos = self.pos + 1;
            Ok(t)
        } else {
            match &self.end {
                Ok(t) => Ok(t.copy()),
                Err(e) => Err(e.copy()),
            }
        }
    }

    /// The kind of the next token, without reading it.
    pub fn peek(&self) -> (r: Result<Tok, LexError>)
        requires
            self.wf(),
        ensures
            r == peek_next(*self),
    {
        if self.pos < self.tokens.len() {
            Ok(self.tokens[self.pos].tok)
        } else {
            match &self.end {
                Ok(t) => Ok(t.tok),
                Err(e) => Err(e.copy()),
            }
        }
    }

    /// Gives back the token just read, so that the next read gives it again.
    pub fn back(&mut self, token: Token)
        requires
            old(self).wf(),
            token.tok != Tok::EOF ==> old(self).pos > 0,
        ensures
            *final(self) == put_back(*old(self), token),
            final(self).wf(),
    {
        if token.tok != Tok::EOF {
            self.pos = self.pos - 1;
        }
    }

    /// The source text of a token.
    pub fn text(&self, token: Token) -> (s: String)
        ensures
            s == token.text,
    {
        token.text
    }
}

/// Where an offset of the source lies: its line and column, counted from 1,
/// and the bounds of that line (without its line break).
#[derive(Debug, Clone, Copy, PartialEq, Eq, Structural)]
pub struct Context {
    pub line: usize,
    pub col: usize,
    pub line_start: usize,
    pub line_end: usize,
}

/// The number of line breaks in `s`.
pub open spec fn count_newlines(s: Seq<u8>) -> nat
    decreases s.len(),
{
    if s.len() == 0 {
        0
    } else {
        count_newlines(s.drop_last()) + if s.last() == 10u8 {
            1nat
        } else {
            0nat
        }
    }
}

/// The offset where the line holding offset `pos` of `s` starts: just after
/// the last line break before `pos`, or 0.
pub open spec fn line_start(s: Seq<u8>, pos: int) -> int
    decreases pos,
{
    if pos <= 0 {
        0
    } else if s[pos - 1] == 10u8 {
        pos
    } else {
        line_start(s, pos - 1)
    }
}

/// The offset where the line holding offset `pos` of `s` ends: at the first
/// line break from `pos` on, or at the end of `s`.
pub open spec fn line_end(s: Seq<u8>, pos: int) -> int
    decreases s.len() - pos,
{
    if pos >= s.len() {
        s.len() as int
    } else if s[pos] == 10u8 {
        pos
    } else {
        line_end(s, pos + 1)
    }
}

/// The context of offset `pos` in `s`.
pub open spec fn context_of(s: Seq<u8>, pos: int) -> Context {
    Context {
        line: (count_newlines(s.subrange(0, pos)) + 1) as usize,
        col: (pos - line_start(s, pos) + 1) as usize,
        line_start: line_start(s, pos) as usize,
        line_end: line_end(s, pos) as usize,
    }
}

proof fn lemma_line_start_bounds(s: Seq<u8>, pos: int)
    requires
        0 <= pos <= s.len(),
    ensures
        0 <= line_start(s, pos) <= pos,
    decreases pos,
{
    if pos > 0 && s[pos - 1] != 10u8 {
        lemma_line_start_bounds(s, pos - 1);
    }
}

proof fn lemma_count_newlines_bound(s: Seq<u8>)
    ensures
        count_newlines(s) <= s.len(),
    decreases s.len(),
{
    if s.len() > 0 {
        lemma_count_newlines_bound(s.drop_last());
    }
}

proof fn lemma_line_start_props(s: Seq<u8>, pos: int)
    requires
        0 <= pos <= s.len(),
    ensures
        line_start(s, pos) == 0 || s[line_start(s, pos) - 1] == 10u8,
        forall|i: int| line_start(s, pos) <= i < pos ==> s[i] != 10u8,
    decreases pos,
{
    if pos > 0 && s[pos - 1] != 10u8 {
        lemma_line_start_props(s, pos - 1);
    }
}

proof fn lemma_line_end_props(s: Seq<u8>, pos: int)
    requires
        0 <= pos <= s.len(),
    ensures
        pos <= line_end(s, pos) <= s.len(),
        line_end(s, pos) == s.len() || s[line_end(s, pos)] == 10u8,
        forall|i: int| pos <= i < line_end(s, pos) ==> s[i] != 10u8,
    decreases s.len() - pos,
{
    if pos < s.len() && s[pos] != 10u8 {
        lemma_line_end_props(s, pos + 1);
    }
}

/// What the context of an offset is: its line runs from just after the
/// last line break before the offset (or the start) to the first line
/// break from the offset on (or the end), with no line break between; the
/// column counts from 1 at the line's start; the first line is line 1, and
/// each line break moves to the next line.
pub proof fn lemma_context(s: Seq<u8>, pos: int)
    requires
        0 <= pos <= s.len(),
        s.len() < usize::MAX,
    ensures
        ({
            let c = context_of(s, pos);
            &&& c.line_start <= pos <= c.line_end <= s.len()
            &&& c.line_start == 0 || s[c.line_start - 1] == 10u8
            &&& c.line_end == s.len() || s[c.line_end as int] == 10u8
            &&& forall|i: int| c.line_start <= i < c.line_end ==> s[i] != 10u8
            &&& c.col >= 1 && c.line_start + c.col - 1 == pos
            &&& pos == 0 ==> c.line == 1
            &&& pos > 0 ==> c.line == context_of(s, pos - 1).line + if s[pos - 1] == 10u8 {
                1int
            } else {
                0int
            }
        }),
{
    lemma_line_start_bounds(s, pos);
    lemma_line_start_props(s, pos);
    lemma_line_end_props(s, pos);
    lemma_count_newlines_bound(s.subrange(0, pos));
    if pos > 0 {
        assert(s.subrange(0, pos).drop_last() =~= s.subrange(0, pos - 1));
        lemma_count_newlines_bound(s.subrange(0, pos - 1));
    } else {
        assert(s.subrange(0, 0) =~= Seq::<u8>::empty());
    }
}

/// Finds the line and column of offset `pos` of `source`, and the bounds of
/// its line.
pub fn context(source: &[u8], pos: usize) -> (c: Context)
    requires
        pos <= source.len(),
        source.len() < usize::MAX,
    ensures
        c == context_of(source@, pos as int),
{
    let ghost s = source@;
    let mut line: usize = 1;
    let mut start: usize = 0;
    let mut i: usize = 0;
    while i < pos
        invariant
            i <= pos <= source.len() < usize::MAX,
            s == source@,
            line == count_newlines(s.subrange(0, i as int)) + 1,
            start == line_start(s, i as int),
        decreases pos - i,
    {
        assert(s.subrange(0, i + 1).drop_last() =~= s.subrange(0, i as int));
        proof {
            lemma_count_newlines_bound(s.subrange(0, i as int));
        }
        if source[i] == 10u8 {
            line = line + 1;
            start = i + 1;
        }
        i = i + 1;
    }
    proof {
        lemma_line_start_bounds(s, pos as int);
    }
    let mut end: usize = pos;
    while end < source.len() && source[end] != 10u8
        invariant
            pos <= end <= source.len(),
            s == source@,
            line_end(s, end as int) == line_end(s, pos as int),
        decreases source.len() - end,
    {
        end = end + 1;
    }
    Context { line, col: pos - start + 1, line_start: start, line_end: end }
}

} // verus!
