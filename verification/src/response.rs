//! What came back from a request, and how it is classified.

use crate::errors::{DecodeCause, Error, ErrorView};
use crate::json::{parsed, Json, JsonView};
use vstd::prelude::*;
use vstd::string::*;

verus! {

/// `reqwest::header::HeaderMap`, the headers of an answer as the transport
/// hands them over. They are carried through: nothing is claimed of what is
/// inside.
#[verifier::external_type_specification]
#[verifier::external_body]
#[verifier::reject_recursive_types(T)]
pub struct ExHeaderMap<T>(reqwest::header::HeaderMap<T>);

/// `reqwest::header::HeaderValue`, what a `HeaderMap` holds for each name.
#[verifier::external_type_specification]
#[verifier::external_body]
pub struct ExHeaderValue(reqwest::header::HeaderValue);

/// What the transport reports of one request: that it failed, or the answer
/// of the server as it came.
pub enum Outcome {
    Failed { cause: String },
    Received { status: u16, headers: reqwest::header::HeaderMap, body: String },
}

/// An answer with a status from 200 to 299 whose body is a JSON text: the
/// document that the body writes, the headers, and the body itself.
pub struct Answer {
    pub document: Json,
    pub headers: reqwest::header::HeaderMap,
    pub raw_body: String,
}

/// A value read from an answer, with the headers that the server sent with
/// it.
pub struct Resp<D> {
    pub data: D,
    pub headers: reqwest::header::HeaderMap,
}

/// Whether a status reports success: 200 to 299.
pub open spec fn is_success(status: u16) -> bool {
    200 <= status <= 299
}

/// The messages that an error document holds: the texts under
/// `errorMessages` where the document is an object that has them as an array
/// of texts; else the texts of the document where it is itself an array of
/// texts; else none.
pub open spec fn messages_in(document: JsonView) -> Seq<Seq<char>> {
    match document.member("errorMessages"@) {
        Some(listed) if listed.texts() is Some => listed.texts().unwrap(),
        _ => match document.texts() {
            Some(texts) => texts,
            None => Seq::empty(),
        },
    }
}

/// The messages that the body of an error answer holds; none where the body
/// is not a JSON text.
pub open spec fn error_messages(body: Seq<char>) -> Seq<Seq<char>> {
    match parsed(body) {
        Some(document) => messages_in(document),
        None => Seq::empty(),
    }
}

/// Whether a status reports success.
pub fn status_is_success(status: u16) -> (b: bool)
    ensures
        b == is_success(status),
{
    200 <= status && status <= 299
}

/// The messages that an error document holds.
pub fn messages_of(document: &Json) -> (res: Vec<String>)
    ensures
        res@.map_values(|m: String| m@) == messages_in(document@),
{
    match document.member("errorMessages") {
        Some(listed) => {
            match listed.as_texts() {
                Some(texts) => {
                    return texts;
                },
                None => {},
            }
        },
        None => {},
    }
    match document.as_texts() {
        Some(texts) => texts,
        None => {
            let res: Vec<String> = Vec::new();
            assert(res@.map_values(|m: String| m@) =~= Seq::<Seq<char>>::empty());
            res
        },
    }
}

/// What an outcome amounts to, given the document that its body writes:
/// a failed request is a transport error; an answer outside 200 to 299 is an
/// error of the interface with the status and the messages of the document;
/// an answer from 200 to 299 is a decoding error where the body is no JSON
/// text, and else the answer.
pub fn classify_parsed(outcome: Outcome, document: Option<Json>) -> (res: Result<Answer, Error>)
    ensures
        match outcome {
            Outcome::Failed { cause } => res matches Err(e) && e@ == (ErrorView::Transport {
                cause: cause@,
            }),
            Outcome::Received { status, headers, body } => if !is_success(status) {
                res matches Err(e) && e@ == (ErrorView::Api {
                    status,
                    messages: match document {
                        Some(d) => messages_in(d@),
                        None => Seq::empty(),
                    },
                })
            } else {
                match document {
                    None => res matches Err(e) && e@ == (ErrorView::Decode {
                        raw_body: body@,
                        cause: DecodeCause::Syntax,
                    }),
                    Some(d) => res matches Ok(a) && a.document == d && a.headers == headers
                        && a.raw_body == body,
                }
            },
        },
{
    match outcome {
        Outcome::Failed { cause } => Err(Error::Transport { cause }),
        Outcome::Received { status, headers, body } => {
            if !status_is_success(status) {
                let messages = match &document {
                    Some(d) => messages_of(d),
                    None => {
                        let none: Vec<String> = Vec::new();
                        assert(none@.map_values(|m: String| m@) =~= Seq::<Seq<char>>::empty());
                        none
                    },
                };
                Err(Error::Api { status, messages })
            } else {
                match document {
                    None => Err(Error::Decode { raw_body: body, cause: DecodeCause::Syntax }),
                    Some(d) => Ok(Answer { document: d, headers, raw_body: body }),
                }
            }
        },
    }
}

/// The error that an outcome amounts to before its document is looked at,
/// if it is one: a failed request, an answer outside 200 to 299, or a body
/// that is no JSON text.
pub open spec fn failure_of(outcome: Outcome) -> Option<ErrorView> {
    match outcome {
        Outcome::Failed { cause } => Some(ErrorView::Transport { cause: cause@ }),
        Outcome::Received { status, headers, body } => if !is_success(status) {
            Some(ErrorView::Api { status, messages: error_messages(body@) })
        } else if parsed(body@) is None {
            Some(ErrorView::Decode { raw_body: body@, cause: DecodeCause::Syntax })
        } else {
            None
        },
    }
}

/// The document that the body of an answer writes.
pub open spec fn document_of(outcome: Outcome) -> JsonView
    recommends
        failure_of(outcome) is None,
{
    parsed(outcome->body@).unwrap()
}

/// Classifies an outcome: reads the body as a JSON text and goes on as
/// `classify_parsed` says.
pub fn classify(outcome: Outcome) -> (res: Result<Answer, Error>)
    ensures
        match failure_of(outcome) {
            Some(failure) => res matches Err(e) && e@ == failure,
            None => res matches Ok(a) && a.document@ == document_of(outcome) && a.headers
                == outcome->headers && a.raw_body == outcome->body,
        },
{
    let document = match &outcome {
        Outcome::Failed { .. } => None,
        Outcome::Received { body, .. } => Json::parse(body.as_str()),
    };
    classify_parsed(outcome, document)
}

/// Ends the reading of an answer: the value with the headers where the
/// document had the shape of the value, and else a decoding error that holds
/// the body.
pub fn finish<D>(decoded: Option<D>, headers: reqwest::header::HeaderMap, raw_body: String) -> (res:
    Result<Resp<D>, Error>)
    ensures
        match decoded {
            Some(data) => res matches Ok(r) && r.data == data && r.headers == headers,
            None => res matches Err(e) && e@ == (ErrorView::Decode {
                raw_body: raw_body@,
                cause: DecodeCause::Shape,
            }),
        },
{
    match decoded {
        Some(data) => Ok(Resp { data, headers }),
        None => Err(Error::Decode { raw_body, cause: DecodeCause::Shape }),
    }
}

} // verus!
