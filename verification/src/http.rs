use vstd::prelude::*;

verus! {

/// The method of an HTTP request.
#[derive(Clone, Copy, Debug, PartialEq, Eq, Structural)]
pub enum HttpMethod {
    Get,
    Post,
}

/// A name with its value: a query parameter, a header, or a member of a
/// JSON object whose value is a string.
#[derive(Clone, Debug, PartialEq, Eq)]
pub struct Field {
    pub name: String,
    pub value: String,
}

impl View for Field {
    type V = (Seq<char>, Seq<char>);

    open spec fn view(&self) -> (Seq<char>, Seq<char>) {
        (self.name@, self.value@)
    }
}

impl Field {
    /// The field `name` with the value `value`.
    pub fn new(name: &str, value: &str) -> (field: Field)
        ensures
            field@ == (name@, value@),
    {
        Field { name: String::from_str(name), value: String::from_str(value) }
    }
}

/// The values of a list of fields, in the same order.
pub open spec fn field_views(fields: Seq<Field>) -> Seq<(Seq<char>, Seq<char>)> {
    fields.map_values(|field: Field| field@)
}

/// A request to one of the two services, ready to be sent: where it goes,
/// and what it carries.
#[derive(Clone, Debug, PartialEq, Eq)]
pub struct HttpRequest {
    pub method: HttpMethod,
    pub url: String,
    pub query: Vec<Field>,
    pub headers: Vec<Field>,
    /// The members of the JSON object in the body, if the request has one.
    pub json: Option<Vec<Field>>,
}

/// The mathematical value of an `HttpRequest`.
pub ghost struct RequestView {
    pub method: HttpMethod,
    pub url: Seq<char>,
    pub query: Seq<(Seq<char>, Seq<char>)>,
    pub headers: Seq<(Seq<char>, Seq<char>)>,
    pub json: Option<Seq<(Seq<char>, Seq<char>)>>,
}

impl View for HttpRequest {
    type V = RequestView;

    open spec fn view(&self) -> RequestView {
        RequestView {
            method: self.method,
            url: self.url@,
            query: field_views(self.query@),
            headers: field_views(self.headers@),
            json: match self.json {
                Some(members) => Some(field_views(members@)),
                None => None,
            },
        }
    }
}

} // verus!
