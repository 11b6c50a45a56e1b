use vstd::prelude::*;

verus! {

/// The status of an answer.
#[derive(Clone, Copy, Debug, PartialEq, Eq, Structural)]
pub enum Status {
    /// 200
    Success,
    /// 404
    NotFound,
    /// 406
    NotAcceptable,
}

/// An answer: a body, when there is one, and its status.
#[derive(Debug, PartialEq, Eq)]
pub struct Reply<T> {
    pub body: Option<T>,
    pub status: Status,
}

/// The answer to a lookup that found `body`, or `missing` when it found nothing.
pub open spec fn found_reply<T>(body: Option<T>, missing: Status) -> Reply<T> {
    Reply {
        body: body,
        status: if body is Some { Status::Success } else { missing },
    }
}

impl<T> Reply<T> {
    /// Answers with what a lookup found, with `Success`, or with no body and
    /// `missing` when it found nothing.
    pub fn found(body: Option<T>, missing: Status) -> (r: Reply<T>)
        ensures
            r == found_reply(body, missing),
    {
        let status = match &body {
            Some(_) => Status::Success,
            None => missing,
        };
        Reply { body, status }
    }

    /// Answers with no body and `status`.
    pub fn refuse(status: Status) -> (r: Reply<T>)
        ensures
            r.body is None,
            r.status == status,
    {
        Reply { body: None, status }
    }
}

} // verus!
