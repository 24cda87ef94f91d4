use vstd::prelude::*;
use crate::ffi_types::ResponseContext;

verus! {

/// A buffered response that CEF reads in chunks: the status line, the MIME type, the body
/// and how much of the body has been handed out.
pub struct ResponseState {
    status_code: i32,
    mime_type: String,
    data: Vec<u8>,
    offset: usize,
}

/// What one call of [`ResponseState::read`] hands to CEF.
pub struct ReadChunk {
    /// 1 while the call delivered (possibly zero) bytes, 0 once the body is exhausted.
    pub status: i32,
    /// The count reported back to CEF.
    pub bytes_read: i32,
    /// The bytes to copy into CEF's buffer.
    pub bytes: Vec<u8>,
}

/// The values CEF's response headers are filled with.
pub struct HeaderValues {
    pub status_code: i32,
    pub mime_type: String,
    pub content_length: i64,
}

impl ResponseState {
    #[verifier::type_invariant]
    spec fn inv(self) -> bool {
        self.offset <= self.data@.len()
    }

    pub closed spec fn status_code(self) -> i32 {
        self.status_code
    }

    pub closed spec fn mime_type(self) -> Seq<char> {
        self.mime_type@
    }

    /// The whole body.
    pub closed spec fn body(self) -> Seq<u8> {
        self.data@
    }

    /// How many body bytes have been handed out.
    pub closed spec fn offset(self) -> nat {
        self.offset as nat
    }

    /// The part of the body not yet handed out.
    pub closed spec fn remaining(self) -> Seq<u8> {
        self.data@.subrange(self.offset as int, self.data@.len() as int)
    }

    /// Starts reading the answer that the host wrote into `ctx` from its first byte.
    pub fn from_context(ctx: ResponseContext) -> (r: ResponseState)
        ensures
            r.status_code() == ctx.status_code,
            r.mime_type() == ctx.mime_type@,
            r.body() == ctx.data@,
            r.offset() == 0,
            r.remaining() == ctx.data@,
            r.offset() <= r.body().len(),
    {
        let r = ResponseState {
            status_code: ctx.status_code,
            mime_type: ctx.mime_type,
            data: ctx.data,
            offset: 0,
        };
        assert(r.data@.subrange(0, r.data@.len() as int) =~= r.data@);
        r
    }

    /// The status code, MIME type and body length that the response headers announce.
    pub fn header_values(&self) -> (h: HeaderValues)
        ensures
            h.status_code == self.status_code(),
            h.mime_type@ == self.mime_type(),
            h.content_length == self.body().len() as i64,
    {
        HeaderValues {
            status_code: self.status_code,
            mime_type: self.mime_type.clone(),
            content_length: #[verifier::truncate] (self.data.len() as i64),
        }
    }

    /// Hands out the next chunk of the body, at most `bytes_to_read` bytes of it (a negative
    /// request, taken as an unsigned size, asks for all that is left). Once nothing is left
    /// the call reports the end (status 0) and delivers nothing.
    pub fn read(&mut self, bytes_to_read: i32) -> (c: ReadChunk)
        ensures
            final(self).status_code() == old(self).status_code(),
            final(self).mime_type() == old(self).mime_type(),
            final(self).body() == old(self).body(),
            old(self).remaining() == c.bytes@ + final(self).remaining(),
            old(self).remaining().len() == 0 ==> c.status == 0 && c.bytes@.len() == 0,
            old(self).remaining().len() > 0 ==> {
                &&& c.status == 1
                &&& c.bytes@.len() == if (bytes_to_read as usize) < old(self).remaining().len() {
                    (bytes_to_read as usize) as int
                } else {
                    old(self).remaining().len() as int
                }
            },
            final(self).offset() == old(self).offset() + c.bytes@.len(),
            final(self).offset() <= final(self).body().len(),
            old(self).remaining().len() > 0 && bytes_to_read > 0 ==> c.bytes@.len() > 0,
            c.bytes_read == c.bytes@.len() as i32,
    {
        proof {
            use_type_invariant(&*self);
        }
        let remaining: usize = self.data.len() - self.offset;
        if remaining == 0 {
            assert(self.data@.subrange(self.offset as int, self.data@.len() as int) =~= Seq::<u8>::empty());
            return ReadChunk { status: 0, bytes_read: 0, bytes: Vec::new() };
        }
        let requested: usize = #[verifier::truncate] (bytes_to_read as usize);
        let to_read: usize = if requested < remaining {
            requested
        } else {
            remaining
        };
        let start: usize = self.offset;
        let mut bytes: Vec<u8> = Vec::new();
        let mut i: usize = 0;
        while i < to_read
            invariant
                start + to_read <= self.data.len(),
                i <= to_read,
                bytes@ == self.data@.subrange(start as int, start + i),
            decreases to_read - i,
        {
            bytes.push(self.data[start + i]);
            i = i + 1;
            assert(bytes@ =~= self.data@.subrange(start as int, start + i));
        }
        self.offset = start + to_read;
        assert(self.data@.subrange(start as int, self.data@.len() as int) =~= bytes@
            + self.data@.subrange(self.offset as int, self.data@.len() as int));
        let bytes_read: i32 = #[verifier::truncate] (to_read as i32);
        ReadChunk { status: 1, bytes_read, bytes }
    }
}

/// The answer that a resource-request handler serves, which it gives away once.
pub struct ResponseSlot {
    response: Option<ResponseContext>,
}

impl ResponseSlot {
    /// Whether the answer is still there to be served.
    pub closed spec fn holds_response(self) -> bool {
        self.response is Some
    }

    /// The answer still held.
    pub closed spec fn response(self) -> ResponseContext
        recommends
            self.holds_response(),
    {
        self.response->0
    }

    /// A slot holding the answer that the host wrote.
    pub fn new(response: ResponseContext) -> (s: ResponseSlot)
        ensures
            s.holds_response(),
            s.response() == response,
    {
        ResponseSlot { response: Some(response) }
    }

    /// The reader for the held answer on the first call; `None` on every later call.
    pub fn take_handler(&mut self) -> (r: Option<ResponseState>)
        ensures
            !final(self).holds_response(),
            old(self).holds_response() ==> (r matches Some(state) && {
                &&& state.status_code() == old(self).response().status_code
                &&& state.mime_type() == old(self).response().mime_type@
                &&& state.body() == old(self).response().data@
                &&& state.remaining() == old(self).response().data@
            }),
            !old(self).holds_response() ==> r is None,
    {
        match self.response.take() {
            Some(ctx) => Some(ResponseState::from_context(ctx)),
            None => None,
        }
    }
}

/// Whatever has been read of a response, followed by what is left, is its whole body: so the
/// chunks that successive reads hand out, put together, are the body, each byte once and in
/// order.
pub proof fn law_delivered_then_remaining_is_body(s: ResponseState)
    requires
        s.offset() <= s.body().len(),
    ensures
        s.body() == s.body().subrange(0, s.offset() as int) + s.remaining(),
{
    assert(s.body() =~= s.body().subrange(0, s.offset() as int) + s.remaining());
}

} // verus!
