//! Views of optional and fallible text.

use vstd::prelude::*;

verus! {

/// The characters of an optional text.
pub open spec fn optional_text(text: Option<String>) -> Option<Seq<char>> {
    match text {
        Some(text) => Some(text@),
        None => None,
    }
}

/// A result with the characters of its message.
pub open spec fn result_text<T>(result: Result<T, String>) -> Result<T, Seq<char>> {
    match result {
        Ok(value) => Ok(value),
        Err(message) => Err(message@),
    }
}

/// A result that holds an optional text, with the characters of that and of its
/// message.
pub open spec fn optional_result_text(result: Result<Option<String>, String>) -> Result<
    Option<Seq<char>>,
    Seq<char>,
> {
    match result {
        Ok(text) => Ok(optional_text(text)),
        Err(message) => Err(message@),
    }
}

/// Whether two optional texts read the same.
pub open spec fn same_text(one: Option<String>, other: Option<String>) -> bool {
    match (one, other) {
        (Some(a), Some(b)) => a@ == b@,
        (None, None) => true,
        _ => false,
    }
}

/// `first` followed by `second`.
pub(crate) fn joined(first: &str, second: &str) -> (text: String)
    ensures
        text@ == first@ + second@,
{
    let mut text = first.to_owned();
    text.append(second);
    text
}

/// A text is present exactly if its characters are, and they are its characters.
pub proof fn optional_text_keeps_the_text(text: Option<String>)
    ensures
        optional_text(text) is Some <==> text is Some,
        text is Some ==> optional_text(text)->Some_0 == text->Some_0@,
{
}

/// A result stays what it is, with its value unchanged and its message's characters.
pub proof fn result_text_keeps_the_result<T>(result: Result<T, String>)
    ensures
        result_text(result) is Ok <==> result is Ok,
        result is Ok ==> result_text(result)->Ok_0 == result->Ok_0,
        result is Err ==> result_text(result)->Err_0 == result->Err_0@,
{
}

/// A result that holds an optional text stays what it is, with the characters of the
/// text or of the message.
pub proof fn optional_result_text_keeps_the_result(result: Result<Option<String>, String>)
    ensures
        optional_result_text(result) is Ok <==> result is Ok,
        result is Ok ==> (optional_result_text(result)->Ok_0 is Some <==> result->Ok_0 is Some),
        result is Ok && result->Ok_0 is Some ==> optional_result_text(result)->Ok_0->Some_0
            == result->Ok_0->Some_0@,
        result is Err ==> optional_result_text(result)->Err_0 == result->Err_0@,
{
}

} // verus!
