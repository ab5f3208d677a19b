use std::collections::HashMap;

use vstd::prelude::*;

use crate::types::{self, method_name};

verus! {

/// Something shown under a name.
pub trait HasName {
    spec fn spec_name(&self) -> Seq<char>;

    fn name(&self) -> (r: &str)
        ensures
            r@ == self.spec_name(),
    ;
}

/// An API held in memory with its resources.
#[derive(Debug, Clone)]
pub struct Api {
    resources: Vec<Resource>,
    name: String,
}

/// A resource held in memory with its requests.
#[derive(Debug, Clone)]
pub struct Resource {
    requests: Vec<Request>,
    name: String,
}

/// The HTTP methods of a request held in memory.
#[derive(Debug, Copy, Clone, PartialEq, Eq, Structural)]
pub enum HttpMethod {
    GET,
    POST,
    PUT,
    PATCH,
    DELETE,
}

/// A request held in memory.
#[derive(Debug, Clone)]
pub struct Request {
    route: String,
    method: HttpMethod,
    body: Option<String>,
    headers: HashMap<String, String>,
}

impl Api {
    pub closed spec fn spec_resources(self) -> Seq<Resource> {
        self.resources@
    }

    pub fn new(name: &str) -> (r: Api)
        ensures
            r.spec_name() == name@,
            r.spec_resources() == Seq::<Resource>::empty(),
    {
        Api { resources: Vec::new(), name: name.to_owned() }
    }

    /// An unnamed api holding `resources`.
    pub fn from(resources: Vec<Resource>) -> (r: Api)
        ensures
            r.spec_name() == Seq::<char>::empty(),
            r.spec_resources() == resources@,
    {
        Api { resources, name: String::new() }
    }

    pub fn push_resource(&mut self, resource: Resource)
        ensures
            final(self).spec_resources() == old(self).spec_resources().push(resource),
            final(self).spec_name() == old(self).spec_name(),
    {
        self.resources.push(resource);
    }

    pub fn resources(&self) -> (r: &[Resource])
        ensures
            r@ == self.spec_resources(),
    {
        self.resources.as_slice()
    }

    pub fn remove_resource(&mut self, index: usize)
        requires
            (index as nat) < old(self).spec_resources().len(),
        ensures
            final(self).spec_resources() == old(self).spec_resources().remove(index as int),
            final(self).spec_name() == old(self).spec_name(),
    {
        self.resources.remove(index);
    }
}

impl HasName for Api {
    closed spec fn spec_name(&self) -> Seq<char> {
        self.name@
    }

    fn name(&self) -> (r: &str) {
        self.name.as_str()
    }
}

impl Resource {
    pub closed spec fn spec_requests(self) -> Seq<Request> {
        self.requests@
    }

    pub fn new(name: &str) -> (r: Resource)
        ensures
            r.spec_name() == name@,
            r.spec_requests() == Seq::<Request>::empty(),
    {
        Resource { requests: Vec::new(), name: name.to_owned() }
    }

    /// An unnamed resource holding `requests`.
    pub fn from(requests: Vec<Request>) -> (r: Resource)
        ensures
            r.spec_name() == Seq::<char>::empty(),
            r.spec_requests() == requests@,
    {
        Resource { requests, name: String::new() }
    }

    pub fn push_request(&mut self, request: Request)
        ensures
            final(self).spec_requests() == old(self).spec_requests().push(request),
            final(self).spec_name() == old(self).spec_name(),
    {
        self.requests.push(request);
    }

    pub fn remove_request(&mut self, index: usize)
        requires
            (index as nat) < old(self).spec_requests().len(),
        ensures
            final(self).spec_requests() == old(self).spec_requests().remove(index as int),
            final(self).spec_name() == old(self).spec_name(),
    {
        self.requests.remove(index);
    }

    pub fn requests(&self) -> (r: &[Request])
        ensures
            r@ == self.spec_requests(),
    {
        self.requests.as_slice()
    }
}

impl HasName for Resource {
    closed spec fn spec_name(&self) -> Seq<char> {
        self.name@
    }

    fn name(&self) -> (r: &str) {
        self.name.as_str()
    }
}

impl HttpMethod {
    /// The same method among the stored records' methods.
    pub open spec fn record_method(self) -> types::HttpMethod {
        match self {
            HttpMethod::GET => types::HttpMethod::Get,
            HttpMethod::POST => types::HttpMethod::Post,
            HttpMethod::PUT => types::HttpMethod::Put,
            HttpMethod::PATCH => types::HttpMethod::Patch,
            HttpMethod::DELETE => types::HttpMethod::Delete,
        }
    }

    /// The method's upper-case name, as it is displayed.
    pub fn as_str(&self) -> (r: &'static str)
        ensures
            r@ == method_name(self.record_method()),
    {
        let m = match self {
            HttpMethod::GET => types::HttpMethod::Get,
            HttpMethod::POST => types::HttpMethod::Post,
            HttpMethod::PUT => types::HttpMethod::Put,
            HttpMethod::PATCH => types::HttpMethod::Patch,
            HttpMethod::DELETE => types::HttpMethod::Delete,
        };
        m.as_str()
    }
}

impl Request {
    pub closed spec fn spec_route(self) -> Seq<char> {
        self.route@
    }

    pub closed spec fn spec_method(self) -> HttpMethod {
        self.method
    }

    pub closed spec fn spec_body(self) -> Option<Seq<char>> {
        crate::text::text_of(self.body)
    }

    pub closed spec fn spec_headers(self) -> Map<String, String> {
        self.headers@
    }

    /// An empty GET request: no route, no body, no headers.
    pub fn new() -> (r: Request)
        ensures
            r.spec_route() == Seq::<char>::empty(),
            r.spec_method() == HttpMethod::GET,
            r.spec_body() is None,
            r.spec_headers() == Map::<String, String>::empty(),
    {
        Request { route: String::new(), method: HttpMethod::GET, body: None, headers: HashMap::new() }
    }

    pub fn route(&self) -> (r: &str)
        ensures
            r@ == self.spec_route(),
    {
        self.route.as_str()
    }

    pub fn method(&self) -> (r: &HttpMethod)
        ensures
            *r == self.spec_method(),
    {
        &self.method
    }
}

} // verus!
