use vstd::prelude::*;

use crate::types::HttpMethod;

verus! {

/// A stored API: the root of the hierarchy.
#[derive(Debug, Clone, PartialEq, Eq)]
pub struct Api {
    pub id: i32,
    pub name: String,
}

/// What is needed to store a new API.
pub struct NewApi<'a> {
    pub name: &'a str,
}

/// A stored resource, grouping requests under one API.
#[derive(Debug, Clone, PartialEq, Eq)]
pub struct Resource {
    pub id: i32,
    pub name: String,
    pub api_id: i32,
}

/// What is needed to store a new resource.
pub struct NewResource<'a> {
    pub name: &'a str,
    pub api_id: i32,
}

/// A stored request under one resource.
#[derive(Debug, Clone, PartialEq, Eq)]
pub struct Request {
    pub id: i32,
    pub route: String,
    pub method: HttpMethod,
    pub body: Option<String>,
    pub resource_id: i32,
}

/// What is needed to store a new request.
pub struct NewRequest<'a> {
    pub resource_id: i32,
    pub route: &'a str,
    pub method: HttpMethod,
    pub body: Option<&'a str>,
}

/// A stored header of one request.
#[derive(Debug, Clone, PartialEq, Eq)]
pub struct Header {
    pub id: i32,
    pub key: String,
    pub value: String,
    pub request_id: i32,
}

/// What is needed to store or overwrite a header.
pub struct NewHeader<'a> {
    pub key: &'a str,
    pub value: &'a str,
    pub request_id: i32,
}

/// A stored query parameter of one request.
#[derive(Debug, Clone, PartialEq, Eq)]
pub struct Param {
    pub id: i32,
    pub key: String,
    pub value: String,
    pub request_id: i32,
}

/// What is needed to store or overwrite a query parameter.
pub struct NewParam<'a> {
    pub key: &'a str,
    pub value: &'a str,
    pub request_id: i32,
}

} // verus!
