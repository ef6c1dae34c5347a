//! The entities of the token model and their mathematical views.

use vstd::prelude::*;
use vstd::std_specs::convert::FromSpecImpl;
use crate::debug::{payload_debug_string, payload_debug_text};
use crate::text::{tuple_variant, tuple_variant_text};

verus! {

/// Failures that analyses built on the token model may report.
#[derive(Debug)]
pub enum Error {
    /// A scope-consistency rule was violated; the message says which.
    ConsistentScopeError(String),
}

/// The view of an [`Error`]: its message as a sequence of characters.
pub enum ErrorView {
    ConsistentScopeError(Seq<char>),
}

impl View for Error {
    type V = ErrorView;

    open spec fn view(&self) -> ErrorView {
        match *self {
            Error::ConsistentScopeError(message) => ErrorView::ConsistentScopeError(message@),
        }
    }
}

/// The binary infix operations of the language.
#[derive(Debug, PartialEq, Structural)]
pub enum InfixOperation {
    Addition,
    Subtraction,
    Multiplication,
    Division,
}

impl Clone for InfixOperation {
    fn clone(&self) -> (copy: Self)
        ensures
            copy == *self,
    {
        match self {
            InfixOperation::Addition => InfixOperation::Addition,
            InfixOperation::Subtraction => InfixOperation::Subtraction,
            InfixOperation::Multiplication => InfixOperation::Multiplication,
            InfixOperation::Division => InfixOperation::Division,
        }
    }
}

/// A numeric literal, kept exactly as it was lexed: unsigned or signed, never
/// converted from one to the other.
#[derive(Debug, PartialEq, Structural)]
pub enum Number {
    UINT(usize),
    IINT(isize),
}

impl Clone for Number {
    fn clone(&self) -> (copy: Self)
        ensures
            copy == *self,
    {
        match self {
            Number::UINT(n) => Number::UINT(*n),
            Number::IINT(n) => Number::IINT(*n),
        }
    }
}

/// The data that a token represents: text, one number, or two numbers that
/// belong together.
#[derive(Debug)]
pub enum RepData {
    STRING(String),
    NUMBER(Number),
    TWONUMBER(Number, Number),
}

/// The view of a [`RepData`], with text as a sequence of characters.
pub enum RepDataView {
    STRING(Seq<char>),
    NUMBER(Number),
    TWONUMBER(Number, Number),
}

impl View for RepData {
    type V = RepDataView;

    open spec fn view(&self) -> RepDataView {
        match *self {
            RepData::STRING(text) => RepDataView::STRING(text@),
            RepData::NUMBER(n) => RepDataView::NUMBER(n),
            RepData::TWONUMBER(first, second) => RepDataView::TWONUMBER(first, second),
        }
    }
}

impl Clone for RepData {
    fn clone(&self) -> (copy: Self)
        ensures
            copy@ == self@,
    {
        match self {
            RepData::STRING(text) => RepData::STRING(text.clone()),
            RepData::NUMBER(n) => RepData::NUMBER(n.clone()),
            RepData::TWONUMBER(first, second) => RepData::TWONUMBER(first.clone(), second.clone()),
        }
    }
}

/// The view of an optional payload.
pub open spec fn payload_view(value: Option<RepData>) -> Option<RepDataView> {
    match value {
        Some(data) => Some(data@),
        None => None,
    }
}

/// The lexical kind of a token.
#[derive(Debug, PartialEq, Structural)]
pub enum TokenType {
    PRINT,
    STRING,
    FUNCTION,
    RPAREN,
    LPAREN,
    RETURN,
    NULL,
    NUMBER,
    BINOP(InfixOperation),
}

impl TokenType {
    /// The payload that a token of this kind carries before a scanner has
    /// filled anything in: empty text for the two kinds that hold text, and
    /// nothing for every other kind.
    pub open spec fn default_payload(self) -> Option<RepDataView> {
        match self {
            TokenType::PRINT => Some(RepDataView::STRING(Seq::empty())),
            TokenType::STRING => Some(RepDataView::STRING(Seq::empty())),
            TokenType::FUNCTION
            | TokenType::RPAREN
            | TokenType::LPAREN
            | TokenType::RETURN
            | TokenType::NULL
            | TokenType::NUMBER
            | TokenType::BINOP(_) => None,
        }
    }
}

impl Clone for TokenType {
    fn clone(&self) -> (copy: Self)
        ensures
            copy == *self,
    {
        match self {
            TokenType::PRINT => TokenType::PRINT,
            TokenType::STRING => TokenType::STRING,
            TokenType::FUNCTION => TokenType::FUNCTION,
            TokenType::RPAREN => TokenType::RPAREN,
            TokenType::LPAREN => TokenType::LPAREN,
            TokenType::RETURN => TokenType::RETURN,
            TokenType::NULL => TokenType::NULL,
            TokenType::NUMBER => TokenType::NUMBER,
            TokenType::BINOP(op) => TokenType::BINOP(op.clone()),
        }
    }
}

/// A token generated by the lexer: a kind and the data it represents, if any.
#[derive(Debug)]
pub struct Token {
    pub kind: TokenType,
    pub value: Option<RepData>,
}

/// The view of a [`Token`].
pub struct TokenView {
    pub kind: TokenType,
    pub value: Option<RepDataView>,
}

impl View for Token {
    type V = TokenView;

    open spec fn view(&self) -> TokenView {
        TokenView { kind: self.kind, value: payload_view(self.value) }
    }
}

impl TokenView {
    /// Kind and payload agree as far as the model itself sees to it: a token
    /// of a kind that holds text, `PRINT` or `STRING`, carries text. What a
    /// token of another kind carries is up to whoever produces it.
    pub open spec fn consistent(self) -> bool {
        self.kind is PRINT || self.kind is STRING ==> self.value matches Some(
            RepDataView::STRING(_),
        )
    }

    /// The text that a token is shown as in diagnostics. Keywords and
    /// punctuation show their name; a string and a return show the debug text
    /// of their payload in place of a name; a number shows its payload inside
    /// `NUMBER(..)`; an operator shows the name of the operation.
    pub open spec fn rendering(self) -> Seq<char> {
        match self.kind {
            TokenType::PRINT => "PRINT"@,
            TokenType::STRING => payload_debug_text(self.value),
            TokenType::FUNCTION => "FUNCTION"@,
            TokenType::RPAREN => "RPAREN"@,
            TokenType::LPAREN => "LPAREN"@,
            TokenType::RETURN => payload_debug_text(self.value),
            TokenType::NULL => "NULL"@,
            TokenType::NUMBER => tuple_variant_text("NUMBER"@, payload_debug_text(self.value)),
            TokenType::BINOP(op) => op.debug_text(),
        }
    }
}

impl Token {
    /// Renders the token as text for diagnostics.
    pub fn as_string(&self) -> (text: String)
        ensures
            text@ == self@.rendering(),
    {
        match &self.kind {
            TokenType::PRINT => "PRINT".to_owned(),
            TokenType::STRING => payload_debug_string(&self.value),
            TokenType::FUNCTION => "FUNCTION".to_owned(),
            TokenType::RPAREN => "RPAREN".to_owned(),
            TokenType::LPAREN => "LPAREN".to_owned(),
            TokenType::RETURN => payload_debug_string(&self.value),
            TokenType::NULL => "NULL".to_owned(),
            TokenType::BINOP(op) => op.debug_string(),
            TokenType::NUMBER => tuple_variant(
                "NUMBER",
                payload_debug_string(&self.value).as_str(),
            ),
        }
    }
}

impl From<TokenType> for Token {
    /// Makes the token of a bare kind, with the payload that the kind starts
    /// out with.
    fn from(value: TokenType) -> (token: Token)
        ensures
            token@.kind == value,
            token@.value == value.default_payload(),
            token@.consistent(),
    {
        let payload = match &value {
            TokenType::PRINT => Some(RepData::STRING(String::new())),
            TokenType::STRING => Some(RepData::STRING(String::new())),
            _ => None,
        };
        Token { kind: value, value: payload }
    }
}

impl FromSpecImpl<TokenType> for Token {
    /// Specifications know a `String` by its view alone, so no equation between
    /// tokens can describe the conversion: [`Token::from`] states its result
    /// over views instead.
    open spec fn obeys_from_spec() -> bool {
        false
    }

    open spec fn from_spec(v: TokenType) -> Token {
        choose|token: Token| token@ == (TokenView { kind: v, value: v.default_payload() })
    }
}

/// Rendering is a function of a token's state: whatever [`Token::as_string`]
/// may return for one token is, character for character, whatever it may
/// return for a token of the same kind and payload, and so for the same token
/// rendered again.
pub proof fn lemma_as_string_is_deterministic(a: Token, b: Token, first: String, second: String)
    requires
        a@ == b@,
        call_ensures(Token::as_string, (&a,), first),
        call_ensures(Token::as_string, (&b,), second),
    ensures
        first@ == second@,
{
}

impl Clone for Token {
    fn clone(&self) -> (copy: Self)
        ensures
            copy@ == self@,
    {
        let value = match &self.value {
            Some(data) => Some(data.clone()),
            None => None,
        };
        Token { kind: self.kind.clone(), value }
    }
}

/// A flat binary expression: left operand, operator, right operand.
#[derive(Debug)]
pub struct Expr(pub RepData, pub InfixOperation, pub RepData);

/// The view of an [`Expr`].
pub struct ExprView(pub RepDataView, pub InfixOperation, pub RepDataView);

impl View for Expr {
    type V = ExprView;

    open spec fn view(&self) -> ExprView {
        ExprView(self.0@, self.1, self.2@)
    }
}

impl Clone for Expr {
    fn clone(&self) -> (copy: Self)
        ensures
            copy@ == self@,
    {
        Expr(self.0.clone(), self.1.clone(), self.2.clone())
    }
}

} // verus!
