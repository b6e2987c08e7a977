//! The body of a text upload: one url-encoded pair with the key `text`.

use vstd::prelude::*;

use crate::error::{Error, ErrorKind};
use crate::text::str_eq;

verus! {

/// The name and value pairs that a url-encoded body holds, decoded, in the
/// order in which they stand.
pub uninterp spec fn form_pairs(body: Seq<u8>) -> Seq<(Seq<char>, Seq<char>)>;

/// The characters of each name and value.
pub open spec fn pairs_view(pairs: Seq<(String, String)>) -> Seq<(Seq<char>, Seq<char>)> {
    Seq::new(pairs.len(), |i: int| (pairs[i].0@, pairs[i].1@))
}

/// Decodes a url-encoded body into its pairs.
///
/// Trusted: collects what `form_urlencoded::parse` yields, through
/// `Parse::into_owned`. The parser never fails and its result depends on
/// the bytes alone.
#[verifier::external_body]
pub(crate) fn parse_form(body: &[u8]) -> (pairs: Vec<(String, String)>)
    ensures
        pairs_view(pairs@) == form_pairs(body@),
{
    form_urlencoded::parse(body).into_owned().collect()
}

/// The message for a pair that is not wanted: `{lead} "{key}" with value
/// "{value}" `.
pub open spec fn unwanted_pair(lead: Seq<char>, key: Seq<char>, value: Seq<char>) -> Seq<char> {
    lead + " \""@ + key + "\" with value \""@ + value + "\" "@
}

/// What a decoded text form amounts to: the text, where the form is exactly
/// one pair with the key `text`, and else the complaint for the client.
pub open spec fn text_form_result(pairs: Seq<(Seq<char>, Seq<char>)>) -> Result<
    Seq<char>,
    Seq<char>,
> {
    if pairs.len() == 0 {
        Err("No arguments provided to /text"@)
    } else if pairs[0].0 != "text"@ {
        Err(unwanted_pair("Invalid parameter"@, pairs[0].0, pairs[0].1))
    } else if pairs.len() > 1 {
        Err(unwanted_pair("Invalid extra parameter"@, pairs[1].0, pairs[1].1))
    } else {
        Ok(pairs[0].1)
    }
}

/// A form is accepted exactly if it is a single pair with the key `text`,
/// and then its text is the value of that pair, unchanged.
pub proof fn only_a_single_text_pair_is_accepted(pairs: Seq<(Seq<char>, Seq<char>)>)
    ensures
        text_form_result(pairs) is Ok <==> pairs.len() == 1 && pairs[0].0 == "text"@,
        text_form_result(pairs) matches Ok(text) ==> text == pairs[0].1,
{
}

fn complain(lead: &str, key: &str, value: &str) -> (err: Error)
    ensures
        err.kind == ErrorKind::UserError,
        err.msg@ == unwanted_pair(lead@, key@, value@),
{
    let mut msg = lead.to_owned();
    msg.append(" \"");
    msg.append(key);
    msg.append("\" with value \"");
    msg.append(value);
    msg.append("\" ");
    Error { kind: ErrorKind::UserError, msg }
}

/// Checks a decoded text form: exactly one pair, with the key `text`.
/// Every other form is a client error.
pub fn text_of_form(pairs: &Vec<(String, String)>) -> (res: Result<String, Error>)
    ensures
        match text_form_result(pairs_view(pairs@)) {
            Ok(text) => res matches Ok(t) && t@ == text,
            Err(msg) => res matches Err(e) && e.kind == ErrorKind::UserError && e.msg@ == msg,
        },
{
    if pairs.len() == 0 {
        return Err(Error::new(ErrorKind::UserError, "No arguments provided to /text"));
    }
    let first = &pairs[0];
    if !str_eq(first.0.as_str(), "text") {
        return Err(complain("Invalid parameter", first.0.as_str(), first.1.as_str()));
    }
    if pairs.len() > 1 {
        let second = &pairs[1];
        return Err(complain("Invalid extra parameter", second.0.as_str(), second.1.as_str()));
    }
    Ok(first.1.clone())
}

/// Decodes the body of a text upload and checks it. The result is that of
/// [`text_of_form`] on the pairs the body holds.
pub fn text_of_body(body: &[u8]) -> (res: Result<String, Error>)
    ensures
        match text_form_result(form_pairs(body@)) {
            Ok(text) => res matches Ok(t) && t@ == text,
            Err(msg) => res matches Err(e) && e.kind == ErrorKind::UserError && e.msg@ == msg,
        },
{
    let pairs = parse_form(body);
    text_of_form(&pairs)
}

} // verus!
