//! The messages with which a function exported to R reports a failed
//! conversion of an argument or of its result.
use vstd::prelude::*;
use vstd::string::{StringExecFns, StringSliceAdditionalSpecFns};

use crate::internals::text::{decimal, push_decimal};

verus! {

/// The message for a failure to convert argument number `index` (counted
/// from 0) with error `error`: the argument is named by its position counted
/// from 1.
pub fn argument_error(index: usize, error: &str) -> (r: String)
    requires
        index < usize::MAX,
    ensures
        r@ == "Rustier encountered an error parsing argument "@ + decimal(index as nat + 1) + " : "@
            + error@,
{
    let mut s = String::from_str("Rustier encountered an error parsing argument ");
    push_decimal(&mut s, (index + 1) as u64);
    s.append(" : ");
    s.append(error);
    s
}

/// The message for a failure to convert a result with error `error`.
pub fn return_error(error: &str) -> (r: String)
    ensures
        r@ == "Rustier encountered an error returning to R: "@ + error@,
{
    let mut s = String::from_str("Rustier encountered an error returning to R: ");
    s.append(error);
    s
}

/// Which conversion of a call failed.
#[derive(Debug, Clone, Copy, PartialEq, Eq, Structural)]
pub enum CallStage {
    Arguments,
    Return,
}

/// The text handed to R's error reporting: the message itself, or, when it
/// holds a zero byte and so cannot be passed as a C string, a fixed text
/// naming the stage that failed.
pub fn error_text(message: &str, stage: CallStage) -> (r: &str)
    ensures
        !message.spec_bytes().contains(0u8) ==> r@ == message@,
        message.spec_bytes().contains(0u8) ==> r@ == (match stage {
            CallStage::Arguments => "Rustier error when parsing R arguments: [error could not be formatted]"@,
            CallStage::Return => "Rustier error when returning to R: [error could not be formatted]"@,
        }),
{
    let bytes = message.as_bytes();
    let mut i: usize = 0;
    while i < bytes.len()
        invariant
            i <= bytes@.len(),
            bytes@ == message.spec_bytes(),
            forall|j: int| 0 <= j < i ==> bytes@[j] != 0u8,
        decreases bytes@.len() - i,
    {
        if bytes[i] == 0 {
            return match stage {
                CallStage::Arguments => "Rustier error when parsing R arguments: [error could not be formatted]",
                CallStage::Return => "Rustier error when returning to R: [error could not be formatted]",
            };
        }
        i = i + 1;
    }
    message
}

} // verus!
