use vstd::prelude::*;

verus! {

/// A status code with a body: the reply to one request.
#[derive(Clone, Debug, PartialEq, Eq)]
pub struct Response {
    pub status: u16,
    pub body: Vec<u8>,
}

impl View for Response {
    type V = (u16, Seq<u8>);

    open spec fn view(&self) -> (u16, Seq<u8>) {
        (self.status, self.body@)
    }
}

/// The status code of a successful request.
pub const STATUS_OK: u16 = 200;

/// A reply with `status` and an empty body.
pub open spec fn empty_reply(status: u16) -> (u16, Seq<u8>) {
    (status, Seq::<u8>::empty())
}

impl Response {
    /// A reply with the given status and no body.
    pub fn empty(status: u16) -> (r: Response)
        ensures
            r@ == empty_reply(status),
    {
        Response { status, body: Vec::new() }
    }

    pub fn status(&self) -> (r: u16)
        ensures
            r == self.status,
    {
        self.status
    }

    pub fn body(&self) -> (r: &Vec<u8>)
        ensures
            r@ == self.body@,
    {
        &self.body
    }

    /// Whether the status is 2xx.
    pub fn is_success(&self) -> (r: bool)
        ensures
            r == (200 <= self.status < 300),
    {
        200 <= self.status && self.status < 300
    }
}

} // verus!
