//! Text and bytes: UTF-8, the lossy reading of decoded bytes, case folding and
//! the joining of tokens.

use std::string::FromUtf8Error;
use vstd::prelude::*;
use vstd::string::*;
use vstd::utf8::{decode_utf8, valid_utf8};

verus! {

/// The lowercase form of a text, by the Unicode rules.
pub uninterp spec fn lowercased(text: Seq<char>) -> Seq<char>;

/// `std::string::FromUtf8Error`: the bytes were not UTF-8.
#[verifier::external_type_specification]
#[verifier::external_body]
pub struct ExFromUtf8Error(FromUtf8Error);

/// `String::from_utf8` succeeds exactly on valid UTF-8, and then holds the
/// characters that the bytes encode.
pub assume_specification[ String::from_utf8 ](bytes: Vec<u8>) -> (r: Result<
    String,
    FromUtf8Error,
>)
    ensures
        r is Ok <==> valid_utf8(bytes@),
        r is Ok ==> r->Ok_0@ == decode_utf8(bytes@),
;

/// `str::to_lowercase` depends on the text alone.
pub assume_specification[ str::to_lowercase ](text: &str) -> (r: String)
    ensures
        r@ == lowercased(text@),
;

/// `==` on string slices holds exactly where they have the same characters.
#[verifier::external_body]
pub(crate) fn same_text(a: &str, b: &str) -> (r: bool)
    ensures
        r == (a@ == b@),
{
    a == b
}

/// The text that decoded bytes are read as: their UTF-8 reading, or nothing
/// at all where they are not UTF-8.
pub open spec fn lossy(bytes: Seq<u8>) -> Seq<char> {
    if valid_utf8(bytes) {
        decode_utf8(bytes)
    } else {
        Seq::empty()
    }
}

/// Reads decoded bytes as text. Bytes that are not UTF-8 give the empty
/// string, not an error: the form of the input was already checked, and the
/// content is not held against it.
pub fn lossy_text(bytes: Vec<u8>) -> (r: String)
    ensures
        r@ == lossy(bytes@),
{
    match String::from_utf8(bytes) {
        Ok(text) => text,
        Err(_) => String::new(),
    }
}

/// Tokens joined by single spaces.
pub open spec fn joined(tokens: Seq<Seq<char>>) -> Seq<char>
    decreases tokens.len(),
{
    if tokens.len() == 0 {
        Seq::empty()
    } else if tokens.len() == 1 {
        tokens[0]
    } else {
        joined(tokens.drop_last()) + seq![' '] + tokens.last()
    }
}

/// The tokens of an argument list as character sequences.
pub open spec fn token_views(tokens: Seq<String>) -> Seq<Seq<char>> {
    Seq::new(tokens.len(), |i: int| tokens[i]@)
}

/// Joins the tokens from index `from` on with single spaces. What is inside a
/// token stays as it is.
pub fn join_tokens(tokens: &Vec<String>, from: usize) -> (r: String)
    requires
        from <= tokens.len(),
    ensures
        r@ == joined(token_views(tokens@).skip(from as int)),
{
    let mut text = String::new();
    let mut i: usize = from;
    let ghost all = token_views(tokens@).skip(from as int);
    while i < tokens.len()
        invariant
            from <= i <= tokens.len(),
            all == token_views(tokens@).skip(from as int),
            text@ == joined(all.take(i - from)),
        decreases tokens.len() - i,
    {
        proof {
            let next = all.take(i + 1 - from);
            assert(next.drop_last() =~= all.take(i - from));
            assert(next.last() == tokens@[i as int]@);
            reveal_strlit(" ");
            assert(" "@ =~= seq![' ']);
            if i > from {
                assert(text@ + seq![' '] + tokens@[i as int]@ == joined(next));
            } else {
                assert(all.take(0).len() == 0);
                assert(text@ =~= Seq::<char>::empty());
                assert(text@ + tokens@[i as int]@ =~= joined(next));
            }
        }
        if i > from {
            text.append(" ");
        }
        text.append(tokens[i].as_str());
        i += 1;
    }
    proof {
        assert(all.take(i - from) =~= all);
    }
    text
}

} // verus!
