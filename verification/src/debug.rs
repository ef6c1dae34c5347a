//! The debug text of the values that a token carries, as a specification and
//! as verified functions that build it.
//!
//! The specification follows the layout that `#[derive(Debug)]` prints for
//! these types: a unit variant is its name, a tuple variant is its name with
//! the fields, separated by a comma and a space, in round brackets.

use vstd::prelude::*;
use vstd::string::StringExecFns;
use crate::text::{
    debug_quoted, decimal, push_decimal, push_signed_decimal, quote, signed_decimal, tuple_variant,
    tuple_variant_text,
};
use crate::types::{payload_view, InfixOperation, Number, RepData, RepDataView};

verus! {

impl InfixOperation {
    /// The debug text of an operation: the name of its variant.
    pub open spec fn debug_text(self) -> Seq<char> {
        match self {
            InfixOperation::Addition => "Addition"@,
            InfixOperation::Subtraction => "Subtraction"@,
            InfixOperation::Multiplication => "Multiplication"@,
            InfixOperation::Division => "Division"@,
        }
    }

    /// Builds the debug text of the operation.
    pub fn debug_string(&self) -> (text: String)
        ensures
            text@ == self.debug_text(),
    {
        match self {
            InfixOperation::Addition => "Addition".to_owned(),
            InfixOperation::Subtraction => "Subtraction".to_owned(),
            InfixOperation::Multiplication => "Multiplication".to_owned(),
            InfixOperation::Division => "Division".to_owned(),
        }
    }
}

impl Number {
    /// The debug text of a number: its variant around its decimal numeral.
    pub open spec fn debug_text(self) -> Seq<char> {
        match self {
            Number::UINT(n) => tuple_variant_text("UINT"@, decimal(n as nat)),
            Number::IINT(n) => tuple_variant_text("IINT"@, signed_decimal(n as int)),
        }
    }

    /// Builds the debug text of the number.
    pub fn debug_string(&self) -> (text: String)
        ensures
            text@ == self.debug_text(),
    {
        let mut numeral = String::new();
        match self {
            Number::UINT(n) => {
                push_decimal(&mut numeral, *n);
                tuple_variant("UINT", numeral.as_str())
            },
            Number::IINT(n) => {
                push_signed_decimal(&mut numeral, *n);
                tuple_variant("IINT", numeral.as_str())
            },
        }
    }
}

impl RepDataView {
    /// The debug text of represented data. Text is quoted as
    /// [`debug_quoted`] says; numbers print as [`Number::debug_text`] says.
    pub open spec fn debug_text(self) -> Seq<char> {
        match self {
            RepDataView::STRING(text) => tuple_variant_text("STRING"@, debug_quoted(text)),
            RepDataView::NUMBER(n) => tuple_variant_text("NUMBER"@, n.debug_text()),
            RepDataView::TWONUMBER(first, second) => tuple_variant_text(
                "TWONUMBER"@,
                first.debug_text() + ", "@ + second.debug_text(),
            ),
        }
    }
}

impl RepData {
    /// Builds the debug text of the data.
    pub fn debug_string(&self) -> (text: String)
        ensures
            text@ == self@.debug_text(),
    {
        match self {
            RepData::STRING(text) => tuple_variant("STRING", quote(text.as_str()).as_str()),
            RepData::NUMBER(n) => tuple_variant("NUMBER", n.debug_string().as_str()),
            RepData::TWONUMBER(first, second) => {
                let mut fields = first.debug_string();
                fields.append(", ");
                fields.append(second.debug_string().as_str());
                tuple_variant("TWONUMBER", fields.as_str())
            },
        }
    }
}

/// The debug text of an optional payload: `None` where there is none, else
/// `Some` around the debug text of the data.
pub open spec fn payload_debug_text(value: Option<RepDataView>) -> Seq<char> {
    match value {
        Some(data) => tuple_variant_text("Some"@, data.debug_text()),
        None => "None"@,
    }
}

/// Builds the debug text of an optional payload.
pub fn payload_debug_string(value: &Option<RepData>) -> (text: String)
    ensures
        text@ == payload_debug_text(payload_view(*value)),
{
    match value {
        Some(data) => tuple_variant("Some", data.debug_string().as_str()),
        None => "None".to_owned(),
    }
}

} // verus!
