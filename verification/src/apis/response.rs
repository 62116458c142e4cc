//! The contents of an API response.

use vstd::prelude::*;
use std::collections::HashMap;
use std::string::FromUtf8Error;
use crate::apis::error::Error;

verus! {

/// What an endpoint answered: the status code, the raw body, the body read
/// as the endpoint's entity type, and the response headers.
#[derive(Debug, Clone)]
pub struct ResponseContent<T> {
    pub status: u16,
    pub content: Vec<u8>,
    pub entity: T,
    pub headers: HashMap<String, String>,
}

/// Calls `String::from_utf8`, which the standard library documents to return
/// the string whose UTF-8 encoding the bytes are, and an error exactly when
/// the bytes are not valid UTF-8.
#[verifier::external_body]
fn string_from_utf8(bytes: Vec<u8>) -> (r: Result<String, FromUtf8Error>)
    ensures
        r is Ok <==> vstd::utf8::valid_utf8(bytes@),
        r matches Ok(s) ==> s@ == vstd::utf8::decode_utf8(bytes@),
{
    String::from_utf8(bytes)
}

fn copy_bytes(content: &Vec<u8>) -> (r: Vec<u8>)
    ensures
        r@ == content@,
{
    let mut r: Vec<u8> = Vec::new();
    let mut i: usize = 0;
    while i < content.len()
        invariant
            i <= content@.len(),
            r@ == content@.take(i as int),
        decreases content@.len() - i,
    {
        r.push(content[i]);
        assert(r@ =~= content@.take(i + 1));
        i = i + 1;
    }
    assert(content@.take(i as int) =~= content@);
    r
}

impl<T> ResponseContent<T> {
    /// A response whose body has already been read as the entity `entity`.
    pub fn new(status: u16, content: Vec<u8>, entity: T, headers: HashMap<String, String>) -> (r:
        Self)
        ensures
            r.status == status,
            r.content@ == content@,
            r.entity == entity,
            r.headers == headers,
    {
        ResponseContent { status, content, entity, headers }
    }
}

impl ResponseContent<()> {
    /// A response whose body carries no entity.
    pub fn unit(status: u16, content: Vec<u8>, headers: HashMap<String, String>) -> (r: Self)
        ensures
            r.status == status,
            r.content@ == content@,
            r.headers == headers,
    {
        ResponseContent { status, content, entity: (), headers }
    }
}

impl ResponseContent<Vec<u8>> {
    /// A response whose entity is the raw body.
    pub fn bytes(status: u16, content: Vec<u8>, headers: HashMap<String, String>) -> (r: Self)
        ensures
            r.status == status,
            r.content@ == content@,
            r.entity@ == content@,
            r.headers == headers,
    {
        let entity = copy_bytes(&content);
        ResponseContent { status, content, entity, headers }
    }
}

impl ResponseContent<String> {
    /// A response whose entity is the body read as UTF-8 text; fails with
    /// `Error::StringParse` exactly when the body is not valid UTF-8.
    pub fn string<E>(status: u16, content: Vec<u8>, headers: HashMap<String, String>) -> (r: Result<
        Self,
        Error<E>,
    >)
        ensures
            r is Ok <==> vstd::utf8::valid_utf8(content@),
            r matches Ok(c) ==> {
                &&& c.status == status
                &&& c.content@ == content@
                &&& c.entity@ == vstd::utf8::decode_utf8(content@)
                &&& c.headers == headers
            },
            r matches Err(e) ==> e is StringParse,
    {
        let copy = copy_bytes(&content);
        match string_from_utf8(copy) {
            Ok(entity) => Ok(ResponseContent { status, content, entity, headers }),
            Err(e) => Err(Error::StringParse(e)),
        }
    }
}

} // verus!
