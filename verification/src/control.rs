//! Dispatch of vendor control requests addressed to one interface.
//!
//! A [`ControlHandler`] is bound to one interface of the device. It answers
//! the vendor requests that name this interface and declines every other
//! request, so that another function of the device, or the device stack
//! itself, can answer it.

use vstd::prelude::*;

verus! {

/// Request code of the command that a control transfer without reply data
/// may carry.
pub const COMMAND_REQUEST: u8 = 100;

/// Request value that goes with [`COMMAND_REQUEST`].
pub const COMMAND_VALUE: u16 = 200;

/// Request code by which the host asks for the greeting.
pub const GREETING_REQUEST: u8 = 101;

/// Request value that goes with [`GREETING_REQUEST`].
pub const GREETING_VALUE: u16 = 201;

/// Number of bytes of the greeting; the host must ask for exactly as many.
pub const GREETING_LEN: u16 = 5;

/// Capacity of the control buffer, in bytes: no reply is longer.
pub const CONTROL_BUFFER_SIZE: usize = 64;

/// The greeting, the ASCII text `hello`.
pub const GREETING: [u8; 5] = [0x68, 0x65, 0x6c, 0x6c, 0x6f];

/// Kind of a control request.
#[derive(Clone, Copy, Debug, PartialEq, Eq, Structural)]
pub enum RequestType {
    /// Defined by the USB standard; the device stack answers these.
    Standard,
    /// Defined by a device class.
    Class,
    /// Defined by the vendor of the device.
    Vendor,
    /// Not assigned.
    Reserved,
}

/// Part of the device that a control request is meant for.
#[derive(Clone, Copy, Debug, PartialEq, Eq, Structural)]
pub enum Recipient {
    /// The device as a whole.
    Device,
    /// One interface; the request's index names it.
    Interface,
    /// One endpoint; the request's index names it.
    Endpoint,
    /// None of the above.
    Other,
    /// Not assigned.
    Reserved,
}

/// The setup stage of one control transfer.
#[derive(Clone, Copy, Debug, PartialEq, Eq, Structural)]
pub struct ControlRequest {
    /// Who defines the meaning of `request`.
    pub request_type: RequestType,
    /// Whom the request is meant for.
    pub recipient: Recipient,
    /// Request code.
    pub request: u8,
    /// Argument of the request.
    pub value: u16,
    /// For a request to an interface, the number of that interface.
    pub index: u16,
    /// Length of the data stage: the bytes the host sent, or the most it
    /// will take in reply.
    pub length: u16,
}

/// Number of an interface within the device's configuration.
#[derive(Clone, Copy, Debug, PartialEq, Eq, Structural)]
pub struct InterfaceNumber(pub u8);

/// Answer to a control transfer whose data stage, if any, came from the host.
#[derive(Clone, Copy, Debug, PartialEq, Eq, Structural)]
pub enum OutResponse {
    /// The request is acknowledged.
    Accepted,
    /// The request is refused.
    Rejected,
}

/// Answer to a control transfer in which the host asks for data.
#[derive(Clone, Copy, Debug, PartialEq, Eq)]
pub enum InResponse<'a> {
    /// The request is acknowledged with these bytes.
    Accepted(&'a [u8]),
    /// The request is refused.
    Rejected,
}

/// What a handler makes of one control transfer.
pub enum ControlResponse {
    /// Acknowledged, with no data to return.
    Accepted,
    /// Acknowledged, with the bytes to return.
    Data(Seq<u8>),
    /// Refused: the request is this handler's to answer and it is not one
    /// that it knows.
    Rejected,
    /// Declined: the request is not this handler's to answer.
    NotHandled,
}

/// The bytes of the greeting.
pub open spec fn greeting() -> Seq<u8> {
    GREETING@
}

/// The meaning of what `control_out` returns.
pub open spec fn out_answer(r: Option<OutResponse>) -> ControlResponse {
    match r {
        None => ControlResponse::NotHandled,
        Some(OutResponse::Accepted) => ControlResponse::Accepted,
        Some(OutResponse::Rejected) => ControlResponse::Rejected,
    }
}

/// The meaning of what `control_in` returns.
pub open spec fn in_answer(r: Option<InResponse>) -> ControlResponse {
    match r {
        None => ControlResponse::NotHandled,
        Some(InResponse::Accepted(data)) => ControlResponse::Data(data@),
        Some(InResponse::Rejected) => ControlResponse::Rejected,
    }
}

/// The response buffer after a handler has answered with `response`:
/// reply data stands at the front, every other byte is as it was.
pub open spec fn buffer_after(before: Seq<u8>, response: ControlResponse) -> Seq<u8> {
    match response {
        ControlResponse::Data(payload) => payload + before.skip(payload.len() as int),
        _ => before,
    }
}

/// Answers the control requests of one vendor interface.
#[derive(Clone, Copy, Debug, PartialEq, Eq, Structural)]
pub struct ControlHandler {
    /// The interface that this handler answers for.
    pub if_num: InterfaceNumber,
}

impl ControlHandler {
    /// Whether `req` is this handler's to answer: a vendor request, meant
    /// for an interface, whose index is the number of the bound interface.
    pub open spec fn owns(self, req: ControlRequest) -> bool {
        &&& req.request_type == RequestType::Vendor
        &&& req.recipient == Recipient::Interface
        &&& req.index == self.if_num.0
    }

    /// The answer to a transfer without reply data.
    pub open spec fn out_response(self, req: ControlRequest) -> ControlResponse {
        if !self.owns(req) {
            ControlResponse::NotHandled
        } else if req.request == COMMAND_REQUEST && req.value == COMMAND_VALUE {
            ControlResponse::Accepted
        } else {
            ControlResponse::Rejected
        }
    }

    /// The answer to a transfer in which the host asks for data.
    pub open spec fn in_response(self, req: ControlRequest) -> ControlResponse {
        if !self.owns(req) {
            ControlResponse::NotHandled
        } else if req.request == GREETING_REQUEST && req.value == GREETING_VALUE && req.length
            == GREETING_LEN {
            ControlResponse::Data(greeting())
        } else {
            ControlResponse::Rejected
        }
    }

    /// Tells whether `req` is this handler's to answer.
    pub fn is_owner_of(&self, req: &ControlRequest) -> (b: bool)
        ensures
            b == self.owns(*req),
    {
        req.request_type == RequestType::Vendor && req.recipient == Recipient::Interface
            && req.index == self.if_num.0 as u16
    }

    /// Answers a control transfer whose data stage, `_buf`, came from the
    /// host. Requests that are not this handler's are declined with `None`;
    /// of its own it accepts the one command and rejects the rest. The data
    /// has no part in the answer.
    pub fn control_out(&self, req: ControlRequest, _buf: &[u8]) -> (r: Option<OutResponse>)
        ensures
            req.request_type != RequestType::Vendor || req.recipient != Recipient::Interface
                ==> r is None,
            req.index != self.if_num.0 ==> r is None,
            self.owns(req) ==> r == Some(
                if req.request == COMMAND_REQUEST && req.value == COMMAND_VALUE {
                    OutResponse::Accepted
                } else {
                    OutResponse::Rejected
                },
            ),
            out_answer(r) == self.out_response(req),
    {
        if !self.is_owner_of(&req) {
            return None;
        }
        if req.request == COMMAND_REQUEST && req.value == COMMAND_VALUE {
            Some(OutResponse::Accepted)
        } else {
            Some(OutResponse::Rejected)
        }
    }

    /// Tells whether `req` asks this handler for the greeting.
    pub fn wants_greeting(&self, req: &ControlRequest) -> (b: bool)
        ensures
            b == (self.in_response(*req) is Data),
    {
        self.is_owner_of(req) && req.request == GREETING_REQUEST && req.value == GREETING_VALUE
            && req.length == GREETING_LEN
    }

    /// Answers a control transfer in which the host asks for data, with
    /// `buf` as the place for the reply. Requests that are not this
    /// handler's are declined with `None`; of its own it answers the request
    /// for the greeting, which it writes to the front of `buf`, and rejects
    /// the rest, leaving `buf` as it was.
    pub fn control_in<'a>(
        &self,
        req: ControlRequest,
        buf: &'a mut [u8],
    ) -> (r: Option<InResponse<'a>>)
        requires
            self.in_response(req) is Data ==> old(buf)@.len() >= GREETING_LEN,
        ensures
            req.request_type != RequestType::Vendor || req.recipient != Recipient::Interface
                ==> r is None,
            req.index != self.if_num.0 ==> r is None,
            in_answer(r) == self.in_response(req),
            final(buf)@ == buffer_after(old(buf)@, self.in_response(req)),
            final(buf)@.len() == old(buf)@.len(),
            forall|i: int|
                req.length <= i < old(buf)@.len() ==> final(buf)@[i] == old(buf)@[i],
            r matches Some(InResponse::Accepted(data)) ==> data@.len() <= req.length
                && data@.len() <= CONTROL_BUFFER_SIZE,
    {
        if !self.is_owner_of(&req) {
            return None;
        }
        if req.request == GREETING_REQUEST && req.value == GREETING_VALUE && req.length
            == GREETING_LEN {
            let ghost before = buf@;
            let mut i: usize = 0;
            while i < GREETING.len()
                invariant
                    i <= GREETING@.len() <= buf@.len(),
                    buf@.len() == before.len(),
                    forall|j: int| 0 <= j < i ==> buf@[j] == GREETING@[j],
                    forall|j: int| i <= j < buf@.len() ==> buf@[j] == before[j],
                decreases GREETING@.len() - i,
            {
                buf[i] = GREETING[i];
                i += 1;
            }
            let data = &buf[0..GREETING.len()];
            assert(data@ =~= greeting());
            Some(InResponse::Accepted(data))
        } else {
            Some(InResponse::Rejected)
        }
    }
}

/// The greeting is the text `hello`, one byte for each of its letters.
pub proof fn lemma_greeting_is_hello()
    ensures
        greeting() == "hello"@.map_values(|c: char| c as u8),
        greeting().len() == GREETING_LEN,
{
    reveal_strlit("hello");
    assert(greeting() =~= "hello"@.map_values(|c: char| c as u8));
}

/// A handler declines, for both kinds of transfer, every request that is
/// not a vendor request or is not meant for an interface, and every request
/// whose index is not the number of its interface, whatever the request's
/// code and value are.
pub proof fn lemma_declines_what_it_does_not_own(handler: ControlHandler, req: ControlRequest)
    requires
        req.request_type != RequestType::Vendor || req.recipient != Recipient::Interface
            || req.index != handler.if_num.0,
    ensures
        handler.out_response(req) is NotHandled,
        handler.in_response(req) is NotHandled,
{
}

/// A handler answers, for both kinds of transfer, every vendor request to
/// its interface: it accepts or rejects, and never declines.
pub proof fn lemma_answers_what_it_owns(handler: ControlHandler, req: ControlRequest)
    requires
        handler.owns(req),
    ensures
        handler.out_response(req) == (if req.request == COMMAND_REQUEST && req.value
            == COMMAND_VALUE {
            ControlResponse::Accepted
        } else {
            ControlResponse::Rejected
        }),
        handler.in_response(req) == (if req.request == GREETING_REQUEST && req.value
            == GREETING_VALUE && req.length == GREETING_LEN {
            ControlResponse::Data(greeting())
        } else {
            ControlResponse::Rejected
        }),
{
}

/// Of two handlers bound to different interfaces at most one answers a
/// given request; the other declines it.
pub proof fn lemma_single_owner(first: ControlHandler, second: ControlHandler, req: ControlRequest)
    requires
        first.if_num != second.if_num,
    ensures
        first.out_response(req) is NotHandled || second.out_response(req) is NotHandled,
        first.in_response(req) is NotHandled || second.in_response(req) is NotHandled,
{
}

/// Reply data is never longer than the host asked for, nor than the
/// control buffer.
pub proof fn lemma_reply_fits(handler: ControlHandler, req: ControlRequest)
    ensures
        handler.in_response(req) matches ControlResponse::Data(payload) ==> payload.len()
            <= req.length && payload.len() <= CONTROL_BUFFER_SIZE,
{
}

} // verus!
