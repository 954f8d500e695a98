use vstd::prelude::*;

verus! {

/// A request body as the model sees it: bytes or text, passed on verbatim.
pub enum BodyModel {
    Bytes(Seq<u8>),
    Text(Seq<char>),
}

/// A request body: a view of the caller's bytes, a view of the caller's text,
/// or text that the request owns.
#[derive(Debug, Clone)]
pub enum TeaBody<'a> {
    BorrowedSlice(&'a [u8]),
    BorrowedString(&'a str),
    CopiedString(String),
}

impl<'a> TeaBody<'a> {
    pub open spec fn view(&self) -> BodyModel {
        match self {
            TeaBody::BorrowedSlice(b) => BodyModel::Bytes(b@),
            TeaBody::BorrowedString(s) => BodyModel::Text(s@),
            TeaBody::CopiedString(s) => BodyModel::Text(s@),
        }
    }
}

impl<'a> From<&'a [u8]> for TeaBody<'a> {
    fn from(value: &'a [u8]) -> (r: TeaBody<'a>)
        ensures
            r == TeaBody::BorrowedSlice(value),
    {
        TeaBody::BorrowedSlice(value)
    }
}

impl<'a> vstd::std_specs::convert::FromSpecImpl<&'a [u8]> for TeaBody<'a> {
    open spec fn obeys_from_spec() -> bool {
        true
    }

    open spec fn from_spec(value: &'a [u8]) -> TeaBody<'a> {
        TeaBody::BorrowedSlice(value)
    }
}

impl<'a> From<&'a str> for TeaBody<'a> {
    fn from(value: &'a str) -> (r: TeaBody<'a>)
        ensures
            r == TeaBody::BorrowedString(value),
    {
        TeaBody::BorrowedString(value)
    }
}

impl<'a> vstd::std_specs::convert::FromSpecImpl<&'a str> for TeaBody<'a> {
    open spec fn obeys_from_spec() -> bool {
        true
    }

    open spec fn from_spec(value: &'a str) -> TeaBody<'a> {
        TeaBody::BorrowedString(value)
    }
}

impl<'a> From<String> for TeaBody<'a> {
    fn from(value: String) -> (r: TeaBody<'a>)
        ensures
            r == TeaBody::CopiedString(value),
    {
        TeaBody::CopiedString(value)
    }
}

impl<'a> vstd::std_specs::convert::FromSpecImpl<String> for TeaBody<'a> {
    open spec fn obeys_from_spec() -> bool {
        true
    }

    open spec fn from_spec(value: String) -> TeaBody<'a> {
        TeaBody::CopiedString(value)
    }
}

} // verus!
