//! The `Token` type and its classification predicates.
//!
//! A `Token` is one classified lexical unit of a CAPL-style scripting
//! language: a reserved word, a literal carrying its decoded payload, an
//! operator, a delimiter, an identifier, or one of two sentinels
//! (end-of-input, unrecognized character). The variant space is closed;
//! every classification query below matches on it exhaustively.

use vstd::prelude::*;

verus! {

/// One lexical unit of the language.
///
/// Reserved words, operators and delimiters carry no payload; literal
/// variants own their decoded payload outright. A floating-point literal is
/// kept as the IEEE 754 bit pattern of its value, so that the token model
/// itself stays free of floating-point arithmetic; a hexadecimal literal
/// keeps its original digit text verbatim, since such literals may exceed
/// native integer ranges.
#[derive(Debug, Clone)]
pub enum Token {
    // Control-flow keywords
    If,
    Else,
    Switch,
    Case,
    Default,
    For,
    While,
    Do,
    Break,
    Continue,
    Return,
    // Event-declaration keywords
    On,
    Start,
    PreStart,
    PreStop,
    StopMeasurement,
    Key,
    EnvVar,
    SysVar,
    SysVarChange,
    SysVarUpdate,
    Signal,
    SignalUpdate,
    Pdu,
    // Primitive integer types
    Byte,
    Word,
    Dword,
    Int,
    Long,
    Int64,
    Qword,
    // Primitive floating-point types
    Float,
    Double,
    // Character type
    Char,
    // Structural keywords
    Struct,
    Enum,
    // Domain types
    Timer,
    MsTimer,
    Message,
    // Class types
    File,
    TcpSocket,
    UdpSocket,
    // Pointer-family keywords
    DbMsg,
    SignalPtr,
    SysvarPtr,
    // Type qualifier
    Const,
    // Identifiers and literals
    Identifier(String),
    IntLiteral(i64),
    /// IEEE 754 bit pattern of the 64-bit floating-point literal.
    FloatLiteral(u64),
    HexLiteral(String),
    CharLiteral(char),
    StringLiteral(String),
    // Arithmetic operators
    Plus,
    Minus,
    Star,
    Slash,
    Percent,
    // Increment / decrement
    PlusPlus,
    MinusMinus,
    // Comparison operators
    Equal,
    NotEqual,
    Less,
    LessEqual,
    Greater,
    GreaterEqual,
    // Logical operators
    LogicalAnd,
    LogicalOr,
    LogicalNot,
    // Bitwise operators
    Ampersand,
    Pipe,
    Caret,
    Tilde,
    LeftShift,
    RightShift,
    // Assignment operators
    Assign,
    PlusAssign,
    MinusAssign,
    StarAssign,
    SlashAssign,
    PercentAssign,
    AndAssign,
    OrAssign,
    XorAssign,
    LeftShiftAssign,
    RightShiftAssign,
    // Ternary operator parts
    Question,
    Colon,
    // Member access
    Dot,
    Arrow,
    // Delimiters
    LeftParen,
    RightParen,
    LeftBrace,
    RightBrace,
    LeftBracket,
    RightBracket,
    Semicolon,
    Comma,
    // Sentinels
    Eof,
    Unknown(char),
}

/// Character-by-character string equality, proved against view equality.
/// The keyword table compares short spellings, so the quadratic cost of
/// `get_char` on non-ASCII text does not matter here.
fn str_eq(a: &str, b: &str) -> (r: bool)
    ensures
        r == (a@ == b@),
{
    let n: usize = a.unicode_len();
    let m: usize = b.unicode_len();
    if n != m {
        return false;
    }
    let mut i: usize = 0;
    while i < n
        invariant
            n == a@.len(),
            n == b@.len(),
            i <= n,
            forall|j: int| 0 <= j < i ==> a@[j] == b@[j],
        decreases n - i,
    {
        let ca: char = a.get_char(i);
        let cb: char = b.get_char(i);
        if ca != cb {
            return false;
        }
        i += 1;
    }
    proof {
        assert(a@ =~= b@);
    }
    true
}

impl Token {
    /// Which tokens count as statement-introducing keywords: the
    /// control-flow and event-declaration reserved words, `struct`, `enum`
    /// and `const`. Type-introducing reserved words are deliberately left
    /// out; they are classified by `spec_is_type` alone.
    pub open spec fn spec_is_keyword(self) -> bool {
        match self {
            Token::If | Token::Else | Token::Switch | Token::Case | Token::Default
            | Token::For | Token::While | Token::Do | Token::Break | Token::Continue
            | Token::Return | Token::On | Token::Start | Token::PreStart | Token::PreStop
            | Token::StopMeasurement | Token::Key | Token::EnvVar | Token::SysVar
            | Token::SysVarChange | Token::SysVarUpdate | Token::Signal | Token::SignalUpdate
            | Token::Pdu | Token::Struct | Token::Enum | Token::Const => true,
            _ => false,
        }
    }

    /// Which tokens count as type-introducing keywords: primitive types,
    /// `struct` and `enum`, the domain types, and the pointer-family
    /// keywords. `struct` and `enum` introduce both a statement and a type
    /// context, so they satisfy `spec_is_keyword` as well.
    pub open spec fn spec_is_type(self) -> bool {
        match self {
            Token::Byte | Token::Word | Token::Dword | Token::Int | Token::Long
            | Token::Int64 | Token::Qword | Token::Float | Token::Double | Token::Char
            | Token::Struct | Token::Enum | Token::Timer | Token::MsTimer | Token::Message
            | Token::File | Token::TcpSocket | Token::UdpSocket
            | Token::DbMsg | Token::SignalPtr | Token::SysvarPtr => true,
            _ => false,
        }
    }

    /// Which tokens are assignment operators: plain assignment and the ten
    /// compound-assignment operators, and nothing else.
    pub open spec fn spec_is_assignment(self) -> bool {
        match self {
            Token::Assign | Token::PlusAssign | Token::MinusAssign | Token::StarAssign
            | Token::SlashAssign | Token::PercentAssign | Token::AndAssign | Token::OrAssign
            | Token::XorAssign | Token::LeftShiftAssign | Token::RightShiftAssign => true,
            _ => false,
        }
    }

    /// True exactly for the statement-introducing keywords.
    pub fn is_keyword(&self) -> (r: bool)
        ensures
            r == self.spec_is_keyword(),
    {
        matches!(
            self,
            Token::If | Token::Else | Token::Switch | Token::Case | Token::Default
            | Token::For | Token::While | Token::Do | Token::Break | Token::Continue
            | Token::Return | Token::On | Token::Start | Token::PreStart | Token::PreStop
            | Token::StopMeasurement | Token::Key | Token::EnvVar | Token::SysVar
            | Token::SysVarChange | Token::SysVarUpdate | Token::Signal | Token::SignalUpdate
            | Token::Pdu | Token::Struct | Token::Enum | Token::Const
        )
    }

    /// True exactly for the type-introducing keywords.
    pub fn is_type(&self) -> (r: bool)
        ensures
            r == self.spec_is_type(),
    {
        matches!(
            self,
            Token::Byte | Token::Word | Token::Dword | Token::Int | Token::Long
            | Token::Int64 | Token::Qword | Token::Float | Token::Double | Token::Char
            | Token::Struct | Token::Enum | Token::Timer | Token::MsTimer | Token::Message
            | Token::File | Token::TcpSocket | Token::UdpSocket
            | Token::DbMsg | Token::SignalPtr | Token::SysvarPtr
        )
    }

    /// True exactly for the assignment operators.
    pub fn is_assignment(&self) -> (r: bool)
        ensures
            r == self.spec_is_assignment(),
    {
        matches!(
            self,
            Token::Assign | Token::PlusAssign | Token::MinusAssign | Token::StarAssign
            | Token::SlashAssign | Token::PercentAssign | Token::AndAssign | Token::OrAssign
            | Token::XorAssign | Token::LeftShiftAssign | Token::RightShiftAssign
        )
    }

    /// The keyword table as a mathematical function: the unique
    /// reserved-word token for a spelling, or `None` when the spelling is
    /// not reserved and should be treated as a plain identifier. Lookup is
    /// exact-match and case-sensitive: `signal` and `Signal`, and likewise
    /// `sysVar` and `sysvar`, are distinct entries on purpose, mirroring
    /// case-sensitive distinctions of the language itself.
    pub open spec fn spec_from_keyword(s: Seq<char>) -> Option<Token> {
        if s == "if"@ {
            Some(Token::If)
        } else if s == "else"@ {
            Some(Token::Else)
        } else if s == "switch"@ {
            Some(Token::Switch)
        } else if s == "case"@ {
            Some(Token::Case)
        } else if s == "default"@ {
            Some(Token::Default)
        } else if s == "for"@ {
            Some(Token::For)
        } else if s == "while"@ {
            Some(Token::While)
        } else if s == "do"@ {
            Some(Token::Do)
        } else if s == "break"@ {
            Some(Token::Break)
        } else if s == "continue"@ {
            Some(Token::Continue)
        } else if s == "return"@ {
            Some(Token::Return)
        } else if s == "on"@ {
            Some(Token::On)
        } else if s == "start"@ {
            Some(Token::Start)
        } else if s == "preStart"@ {
            Some(Token::PreStart)
        } else if s == "preStop"@ {
            Some(Token::PreStop)
        } else if s == "stopMeasurement"@ {
            Some(Token::StopMeasurement)
        } else if s == "key"@ {
            Some(Token::Key)
        } else if s == "envVar"@ {
            Some(Token::EnvVar)
        } else if s == "sysVar"@ {
            Some(Token::SysVar)
        } else if s == "sysVar_change"@ {
            Some(Token::SysVarChange)
        } else if s == "sysVar_update"@ {
            Some(Token::SysVarUpdate)
        } else if s == "signal"@ {
            Some(Token::Signal)
        } else if s == "signal_update"@ {
            Some(Token::SignalUpdate)
        } else if s == "PDU"@ {
            Some(Token::Pdu)
        } else if s == "byte"@ {
            Some(Token::Byte)
        } else if s == "word"@ {
            Some(Token::Word)
        } else if s == "dword"@ {
            Some(Token::Dword)
        } else if s == "int"@ {
            Some(Token::Int)
        } else if s == "long"@ {
            Some(Token::Long)
        } else if s == "int64"@ {
            Some(Token::Int64)
        } else if s == "qword"@ {
            Some(Token::Qword)
        } else if s == "float"@ {
            Some(Token::Float)
        } else if s == "double"@ {
            Some(Token::Double)
        } else if s == "char"@ {
            Some(Token::Char)
        } else if s == "struct"@ {
            Some(Token::Struct)
        } else if s == "enum"@ {
            Some(Token::Enum)
        } else if s == "timer"@ {
            Some(Token::Timer)
        } else if s == "msTimer"@ {
            Some(Token::MsTimer)
        } else if s == "message"@ {
            Some(Token::Message)
        } else if s == "File"@ {
            Some(Token::File)
        } else if s == "TcpSocket"@ {
            Some(Token::TcpSocket)
        } else if s == "UdpSocket"@ {
            Some(Token::UdpSocket)
        } else if s == "dbMsg"@ {
            Some(Token::DbMsg)
        } else if s == "Signal"@ {
            Some(Token::SignalPtr)
        } else if s == "sysvar"@ {
            Some(Token::SysvarPtr)
        } else if s == "const"@ {
            Some(Token::Const)
        } else {
            None
        }
    }

    /// The canonical spelling of a reserved-word token, or `None` for
    /// every token that is not a reserved word (literals, operators,
    /// delimiters, identifiers, sentinels).
    pub open spec fn spelling(self) -> Option<Seq<char>> {
        match self {
            Token::If => Some("if"@),
            Token::Else => Some("else"@),
            Token::Switch => Some("switch"@),
            Token::Case => Some("case"@),
            Token::Default => Some("default"@),
            Token::For => Some("for"@),
            Token::While => Some("while"@),
            Token::Do => Some("do"@),
            Token::Break => Some("break"@),
            Token::Continue => Some("continue"@),
            Token::Return => Some("return"@),
            Token::On => Some("on"@),
            Token::Start => Some("start"@),
            Token::PreStart => Some("preStart"@),
            Token::PreStop => Some("preStop"@),
            Token::StopMeasurement => Some("stopMeasurement"@),
            Token::Key => Some("key"@),
            Token::EnvVar => Some("envVar"@),
            Token::SysVar => Some("sysVar"@),
            Token::SysVarChange => Some("sysVar_change"@),
            Token::SysVarUpdate => Some("sysVar_update"@),
            Token::Signal => Some("signal"@),
            Token::SignalUpdate => Some("signal_update"@),
            Token::Pdu => Some("PDU"@),
            Token::Byte => Some("byte"@),
            Token::Word => Some("word"@),
            Token::Dword => Some("dword"@),
            Token::Int => Some("int"@),
            Token::Long => Some("long"@),
            Token::Int64 => Some("int64"@),
            Token::Qword => Some("qword"@),
            Token::Float => Some("float"@),
            Token::Double => Some("double"@),
            Token::Char => Some("char"@),
            Token::Struct => Some("struct"@),
            Token::Enum => Some("enum"@),
            Token::Timer => Some("timer"@),
            Token::MsTimer => Some("msTimer"@),
            Token::Message => Some("message"@),
            Token::File => Some("File"@),
            Token::TcpSocket => Some("TcpSocket"@),
            Token::UdpSocket => Some("UdpSocket"@),
            Token::DbMsg => Some("dbMsg"@),
            Token::SignalPtr => Some("Signal"@),
            Token::SysvarPtr => Some("sysvar"@),
            Token::Const => Some("const"@),
            _ => None,
        }
    }

    /// Resolve a scanned identifier-shaped spelling against the keyword
    /// table. Returns the unique matching reserved-word token, or `None`
    /// when the spelling is not reserved, in which case the caller should
    /// treat it as a plain identifier. Absence of a match is an expected
    /// outcome, not a failure.
    pub fn from_keyword(keyword: &str) -> (r: Option<Token>)
        ensures
            r == Token::spec_from_keyword(keyword@),
    {
        if str_eq(keyword, "if") {
            Some(Token::If)
        } else if str_eq(keyword, "else") {
            Some(Token::Else)
        } else if str_eq(keyword, "switch") {
            Some(Token::Switch)
        } else if str_eq(keyword, "case") {
            Some(Token::Case)
        } else if str_eq(keyword, "default") {
            Some(Token::Default)
        } else if str_eq(keyword, "for") {
            Some(Token::For)
        } else if str_eq(keyword, "while") {
            Some(Token::While)
        } else if str_eq(keyword, "do") {
            Some(Token::Do)
        } else if str_eq(keyword, "break") {
            Some(Token::Break)
        } else if str_eq(keyword, "continue") {
            Some(Token::Continue)
        } else if str_eq(keyword, "return") {
            Some(Token::Return)
        } else if str_eq(keyword, "on") {
            Some(Token::On)
        } else if str_eq(keyword, "start") {
            Some(Token::Start)
        } else if str_eq(keyword, "preStart") {
            Some(Token::PreStart)
        } else if str_eq(keyword, "preStop") {
            Some(Token::PreStop)
        } else if str_eq(keyword, "stopMeasurement") {
            Some(Token::StopMeasurement)
        } else if str_eq(keyword, "key") {
            Some(Token::Key)
        } else if str_eq(keyword, "envVar") {
            Some(Token::EnvVar)
        } else if str_eq(keyword, "sysVar") {
            Some(Token::SysVar)
        } else if str_eq(keyword, "sysVar_change") {
            Some(Token::SysVarChange)
        } else if str_eq(keyword, "sysVar_update") {
            Some(Token::SysVarUpdate)
        } else if str_eq(keyword, "signal") {
            Some(Token::Signal)
        } else if str_eq(keyword, "signal_update") {
            Some(Token::SignalUpdate)
        } else if str_eq(keyword, "PDU") {
            Some(Token::Pdu)
        } else if str_eq(keyword, "byte") {
            Some(Token::Byte)
        } else if str_eq(keyword, "word") {
            Some(Token::Word)
        } else if str_eq(keyword, "dword") {
            Some(Token::Dword)
        } else if str_eq(keyword, "int") {
            Some(Token::Int)
        } else if str_eq(keyword, "long") {
            Some(Token::Long)
        } else if str_eq(keyword, "int64") {
            Some(Token::Int64)
        } else if str_eq(keyword, "qword") {
            Some(Token::Qword)
        } else if str_eq(keyword, "float") {
            Some(Token::Float)
        } else if str_eq(keyword, "double") {
            Some(Token::Double)
        } else if str_eq(keyword, "char") {
            Some(Token::Char)
        } else if str_eq(keyword, "struct") {
            Some(Token::Struct)
        } else if str_eq(keyword, "enum") {
            Some(Token::Enum)
        } else if str_eq(keyword, "timer") {
            Some(Token::Timer)
        } else if str_eq(keyword, "msTimer") {
            Some(Token::MsTimer)
        } else if str_eq(keyword, "message") {
            Some(Token::Message)
        } else if str_eq(keyword, "File") {
            Some(Token::File)
        } else if str_eq(keyword, "TcpSocket") {
            Some(Token::TcpSocket)
        } else if str_eq(keyword, "UdpSocket") {
            Some(Token::UdpSocket)
        } else if str_eq(keyword, "dbMsg") {
            Some(Token::DbMsg)
        } else if str_eq(keyword, "Signal") {
            Some(Token::SignalPtr)
        } else if str_eq(keyword, "sysvar") {
            Some(Token::SysvarPtr)
        } else if str_eq(keyword, "const") {
            Some(Token::Const)
        } else {
            None
        }
    }

    /// Structural equality of tokens, as observed through `==`: equal
    /// variant, and for payload-carrying variants equal payload, where
    /// string payloads compare by their character sequences. Tokens of
    /// distinct variants are never equal, whatever their payloads.
    pub open spec fn token_equal(self, other: Token) -> bool {
        match (self, other) {
            (Token::Identifier(a), Token::Identifier(b)) => a@ == b@,
            (Token::HexLiteral(a), Token::HexLiteral(b)) => a@ == b@,
            (Token::StringLiteral(a), Token::StringLiteral(b)) => a@ == b@,
            (Token::IntLiteral(a), Token::IntLiteral(b)) => a == b,
            (Token::FloatLiteral(a), Token::FloatLiteral(b)) => a == b,
            (Token::CharLiteral(a), Token::CharLiteral(b)) => a == b,
            (Token::Unknown(a), Token::Unknown(b)) => a == b,
            _ => self == other,
        }
    }
}


// `==` on tokens is written by hand, with `token_equal` as its stated
// meaning, so that verified callers and the lemmas below know exactly what
// equality observes.
impl vstd::std_specs::cmp::PartialEqSpecImpl for Token {
    open spec fn obeys_eq_spec() -> bool {
        true
    }

    open spec fn eq_spec(&self, other: &Token) -> bool {
        self.token_equal(*other)
    }
}

impl core::cmp::PartialEq for Token {
    fn eq(&self, other: &Token) -> (r: bool) {
        match (self, other) {
            (Token::Identifier(a), Token::Identifier(b)) => str_eq(a.as_str(), b.as_str()),
            (Token::HexLiteral(a), Token::HexLiteral(b)) => str_eq(a.as_str(), b.as_str()),
            (Token::StringLiteral(a), Token::StringLiteral(b)) => str_eq(a.as_str(), b.as_str()),
            (Token::IntLiteral(a), Token::IntLiteral(b)) => a == b,
            (Token::FloatLiteral(a), Token::FloatLiteral(b)) => a == b,
            (Token::CharLiteral(a), Token::CharLiteral(b)) => a == b,
            (Token::Unknown(a), Token::Unknown(b)) => a == b,
            (Token::If, Token::If) => true,
            (Token::Else, Token::Else) => true,
            (Token::Switch, Token::Switch) => true,
            (Token::Case, Token::Case) => true,
            (Token::Default, Token::Default) => true,
            (Token::For, Token::For) => true,
            (Token::While, Token::While) => true,
            (Token::Do, Token::Do) => true,
            (Token::Break, Token::Break) => true,
            (Token::Continue, Token::Continue) => true,
            (Token::Return, Token::Return) => true,
            (Token::On, Token::On) => true,
            (Token::Start, Token::Start) => true,
            (Token::PreStart, Token::PreStart) => true,
            (Token::PreStop, Token::PreStop) => true,
            (Token::StopMeasurement, Token::StopMeasurement) => true,
            (Token::Key, Token::Key) => true,
            (Token::EnvVar, Token::EnvVar) => true,
            (Token::SysVar, Token::SysVar) => true,
            (Token::SysVarChange, Token::SysVarChange) => true,
            (Token::SysVarUpdate, Token::SysVarUpdate) => true,
            (Token::Signal, Token::Signal) => true,
            (Token::SignalUpdate, Token::SignalUpdate) => true,
            (Token::Pdu, Token::Pdu) => true,
            (Token::Byte, Token::Byte) => true,
            (Token::Word, Token::Word) => true,
            (Token::Dword, Token::Dword) => true,
            (Token::Int, Token::Int) => true,
            (Token::Long, Token::Long) => true,
            (Token::Int64, Token::Int64) => true,
            (Token::Qword, Token::Qword) => true,
            (Token::Float, Token::Float) => true,
            (Token::Double, Token::Double) => true,
            (Token::Char, Token::Char) => true,
            (Token::Struct, Token::Struct) => true,
            (Token::Enum, Token::Enum) => true,
            (Token::Timer, Token::Timer) => true,
            (Token::MsTimer, Token::MsTimer) => true,
            (Token::Message, Token::Message) => true,
            (Token::File, Token::File) => true,
            (Token::TcpSocket, Token::TcpSocket) => true,
            (Token::UdpSocket, Token::UdpSocket) => true,
            (Token::DbMsg, Token::DbMsg) => true,
            (Token::SignalPtr, Token::SignalPtr) => true,
            (Token::SysvarPtr, Token::SysvarPtr) => true,
            (Token::Const, Token::Const) => true,
            (Token::Plus, Token::Plus) => true,
            (Token::Minus, Token::Minus) => true,
            (Token::Star, Token::Star) => true,
            (Token::Slash, Token::Slash) => true,
            (Token::Percent, Token::Percent) => true,
            (Token::PlusPlus, Token::PlusPlus) => true,
            (Token::MinusMinus, Token::MinusMinus) => true,
            (Token::Equal, Token::Equal) => true,
            (Token::NotEqual, Token::NotEqual) => true,
            (Token::Less, Token::Less) => true,
            (Token::LessEqual, Token::LessEqual) => true,
            (Token::Greater, Token::Greater) => true,
            (Token::GreaterEqual, Token::GreaterEqual) => true,
            (Token::LogicalAnd, Token::LogicalAnd) => true,
            (Token::LogicalOr, Token::LogicalOr) => true,
            (Token::LogicalNot, Token::LogicalNot) => true,
            (Token::Ampersand, Token::Ampersand) => true,
            (Token::Pipe, Token::Pipe) => true,
            (Token::Caret, Token::Caret) => true,
            (Token::Tilde, Token::Tilde) => true,
            (Token::LeftShift, Token::LeftShift) => true,
            (Token::RightShift, Token::RightShift) => true,
            (Token::Assign, Token::Assign) => true,
            (Token::PlusAssign, Token::PlusAssign) => true,
            (Token::MinusAssign, Token::MinusAssign) => true,
            (Token::StarAssign, Token::StarAssign) => true,
            (Token::SlashAssign, Token::SlashAssign) => true,
            (Token::PercentAssign, Token::PercentAssign) => true,
            (Token::AndAssign, Token::AndAssign) => true,
            (Token::OrAssign, Token::OrAssign) => true,
            (Token::XorAssign, Token::XorAssign) => true,
            (Token::LeftShiftAssign, Token::LeftShiftAssign) => true,
            (Token::RightShiftAssign, Token::RightShiftAssign) => true,
            (Token::Question, Token::Question) => true,
            (Token::Colon, Token::Colon) => true,
            (Token::Dot, Token::Dot) => true,
            (Token::Arrow, Token::Arrow) => true,
            (Token::LeftParen, Token::LeftParen) => true,
            (Token::RightParen, Token::RightParen) => true,
            (Token::LeftBrace, Token::LeftBrace) => true,
            (Token::RightBrace, Token::RightBrace) => true,
            (Token::LeftBracket, Token::LeftBracket) => true,
            (Token::RightBracket, Token::RightBracket) => true,
            (Token::Semicolon, Token::Semicolon) => true,
            (Token::Comma, Token::Comma) => true,
            (Token::Eof, Token::Eof) => true,
            _ => false,
        }
    }
}

/// Every reserved-word token is recovered from its canonical spelling: the
/// keyword table maps the spelling of `t` back to `Some(t)`, so no table
/// entry is unreachable.
pub proof fn lemma_keyword_round_trip(t: Token)
    requires
        t.spelling() is Some,
    ensures
        Token::spec_from_keyword(t.spelling()->0) == Some(t),
{
    // A string literal's view is opaque until the literal is revealed, and
    // even then the solver only compares two spellings once their lengths,
    // and for equal lengths a differing character, stand as facts. The
    // asserts below pin those facts for every pair of table entries.
    reveal_strlit("if");
    reveal_strlit("else");
    reveal_strlit("switch");
    reveal_strlit("case");
    reveal_strlit("default");
    reveal_strlit("for");
    reveal_strlit("while");
    reveal_strlit("do");
    reveal_strlit("break");
    reveal_strlit("continue");
    reveal_strlit("return");
    reveal_strlit("on");
    reveal_strlit("start");
    reveal_strlit("preStart");
    reveal_strlit("preStop");
    reveal_strlit("stopMeasurement");
    reveal_strlit("key");
    reveal_strlit("envVar");
    reveal_strlit("sysVar");
    reveal_strlit("sysVar_change");
    reveal_strlit("sysVar_update");
    reveal_strlit("signal");
    reveal_strlit("signal_update");
    reveal_strlit("PDU");
    reveal_strlit("byte");
    reveal_strlit("word");
    reveal_strlit("dword");
    reveal_strlit("int");
    reveal_strlit("long");
    reveal_strlit("int64");
    reveal_strlit("qword");
    reveal_strlit("float");
    reveal_strlit("double");
    reveal_strlit("char");
    reveal_strlit("struct");
    reveal_strlit("enum");
    reveal_strlit("timer");
    reveal_strlit("msTimer");
    reveal_strlit("message");
    reveal_strlit("File");
    reveal_strlit("TcpSocket");
    reveal_strlit("UdpSocket");
    reveal_strlit("dbMsg");
    reveal_strlit("Signal");
    reveal_strlit("sysvar");
    reveal_strlit("const");
    assert("if"@.len() == 2);
    assert("else"@.len() == 4);
    assert("switch"@.len() == 6);
    assert("case"@.len() == 4);
    assert("default"@.len() == 7);
    assert("for"@.len() == 3);
    assert("while"@.len() == 5);
    assert("do"@.len() == 2);
    assert("break"@.len() == 5);
    assert("continue"@.len() == 8);
    assert("return"@.len() == 6);
    assert("on"@.len() == 2);
    assert("start"@.len() == 5);
    assert("preStart"@.len() == 8);
    assert("preStop"@.len() == 7);
    assert("stopMeasurement"@.len() == 15);
    assert("key"@.len() == 3);
    assert("envVar"@.len() == 6);
    assert("sysVar"@.len() == 6);
    assert("sysVar_change"@.len() == 13);
    assert("sysVar_update"@.len() == 13);
    assert("signal"@.len() == 6);
    assert("signal_update"@.len() == 13);
    assert("PDU"@.len() == 3);
    assert("byte"@.len() == 4);
    assert("word"@.len() == 4);
    assert("dword"@.len() == 5);
    assert("int"@.len() == 3);
    assert("long"@.len() == 4);
    assert("int64"@.len() == 5);
    assert("qword"@.len() == 5);
    assert("float"@.len() == 5);
    assert("double"@.len() == 6);
    assert("char"@.len() == 4);
    assert("struct"@.len() == 6);
    assert("enum"@.len() == 4);
    assert("timer"@.len() == 5);
    assert("msTimer"@.len() == 7);
    assert("message"@.len() == 7);
    assert("File"@.len() == 4);
    assert("TcpSocket"@.len() == 9);
    assert("UdpSocket"@.len() == 9);
    assert("dbMsg"@.len() == 5);
    assert("Signal"@.len() == 6);
    assert("sysvar"@.len() == 6);
    assert("const"@.len() == 5);
    assert("if"@[0] == 'i');
    assert("else"@[0] == 'e');
    assert("else"@[1] == 'l');
    assert("switch"@[0] == 's');
    assert("switch"@[1] == 'w');
    assert("case"@[0] == 'c');
    assert("case"@[1] == 'a');
    assert("default"@[0] == 'd');
    assert("for"@[0] == 'f');
    assert("while"@[0] == 'w');
    assert("do"@[0] == 'd');
    assert("break"@[0] == 'b');
    assert("continue"@[0] == 'c');
    assert("return"@[0] == 'r');
    assert("on"@[0] == 'o');
    assert("start"@[0] == 's');
    assert("preStart"@[0] == 'p');
    assert("preStop"@[0] == 'p');
    assert("key"@[0] == 'k');
    assert("envVar"@[0] == 'e');
    assert("sysVar"@[0] == 's');
    assert("sysVar"@[1] == 'y');
    assert("sysVar"@[3] == 'V');
    assert("sysVar_change"@[1] == 'y');
    assert("sysVar_change"@[7] == 'c');
    assert("sysVar_update"@[1] == 'y');
    assert("sysVar_update"@[7] == 'u');
    assert("signal"@[0] == 's');
    assert("signal"@[1] == 'i');
    assert("signal_update"@[1] == 'i');
    assert("PDU"@[0] == 'P');
    assert("byte"@[0] == 'b');
    assert("word"@[0] == 'w');
    assert("dword"@[0] == 'd');
    assert("dword"@[1] == 'w');
    assert("int"@[0] == 'i');
    assert("long"@[0] == 'l');
    assert("int64"@[0] == 'i');
    assert("qword"@[0] == 'q');
    assert("float"@[0] == 'f');
    assert("double"@[0] == 'd');
    assert("char"@[0] == 'c');
    assert("char"@[1] == 'h');
    assert("struct"@[0] == 's');
    assert("struct"@[1] == 't');
    assert("enum"@[0] == 'e');
    assert("enum"@[1] == 'n');
    assert("timer"@[0] == 't');
    assert("msTimer"@[0] == 'm');
    assert("msTimer"@[1] == 's');
    assert("message"@[0] == 'm');
    assert("message"@[1] == 'e');
    assert("File"@[0] == 'F');
    assert("TcpSocket"@[0] == 'T');
    assert("UdpSocket"@[0] == 'U');
    assert("dbMsg"@[0] == 'd');
    assert("dbMsg"@[1] == 'b');
    assert("Signal"@[0] == 'S');
    assert("sysvar"@[0] == 's');
    assert("sysvar"@[1] == 'y');
    assert("sysvar"@[3] == 'v');
    assert("const"@[0] == 'c');
}

/// A spelling accepted by the keyword table is the canonical spelling of
/// the token it resolves to: the set of accepted spellings is exactly the
/// table's domain, and only reserved-word tokens are ever returned (never
/// a literal, operator, delimiter or sentinel).
pub proof fn lemma_from_keyword_in_table(s: Seq<char>)
    ensures
        Token::spec_from_keyword(s) matches Some(t) ==> t.spelling() == Some(s),
{
}

/// The keyword table is injective: no two spellings resolve to the same
/// reserved-word token.
pub proof fn lemma_from_keyword_injective(s1: Seq<char>, s2: Seq<char>)
    requires
        Token::spec_from_keyword(s1) is Some,
        Token::spec_from_keyword(s1) == Token::spec_from_keyword(s2),
    ensures
        s1 == s2,
{
    lemma_from_keyword_in_table(s1);
    lemma_from_keyword_in_table(s2);
}

/// A token is both a statement-introducing keyword and a type-introducing
/// keyword exactly when it is `struct` or `enum`; for every other token
/// the two classifications never hold together.
pub proof fn lemma_keyword_type_overlap(t: Token)
    ensures
        (t.spec_is_keyword() && t.spec_is_type()) <==> (t == Token::Struct || t == Token::Enum),
{
}

/// The assignment classification holds for exactly the eleven assignment
/// operators: plain `=` and the ten compound forms.
pub proof fn lemma_assignment_exact(t: Token)
    ensures
        t.spec_is_assignment() <==> (t == Token::Assign || t == Token::PlusAssign
            || t == Token::MinusAssign || t == Token::StarAssign || t == Token::SlashAssign
            || t == Token::PercentAssign || t == Token::AndAssign || t == Token::OrAssign
            || t == Token::XorAssign || t == Token::LeftShiftAssign
            || t == Token::RightShiftAssign),
{
}

/// Two identifier tokens are equal exactly when their owned character
/// sequences are equal.
pub proof fn lemma_identifier_equality(a: String, b: String)
    ensures
        Token::Identifier(a).token_equal(Token::Identifier(b)) <==> a@ == b@,
{
}

/// A hexadecimal literal is never equal to an integer literal, whatever
/// the digit text and the value: distinct variants never compare equal.
pub proof fn lemma_hex_int_distinct(s: String, n: i64)
    ensures
        !Token::HexLiteral(s).token_equal(Token::IntLiteral(n)),
{
}

} // verus!
