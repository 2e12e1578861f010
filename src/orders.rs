use vstd::prelude::*;

use crate::response::{
    message_of, payload_of, status_of, Envelope, ErrorKind, ReplyView, STATUS_INTERNAL, STATUS_OK,
};

verus! {

/// Message when the upstream service could not be reached.
pub const UPSTREAM_UNREACHABLE: &'static str = "could not reach upstream";

/// Message when the upstream body did not decode into the expected shape.
pub const UPSTREAM_UNDECODABLE: &'static str = "could not decode upstream response";

/// Message when the upstream response carried protocol-level errors.
pub const UPSTREAM_ERRORS: &'static str = "upstream reported errors";

/// Message when the upstream response carried neither data nor errors.
pub const UPSTREAM_NO_DATA: &'static str = "no data";

/// A decoded upstream response: the data, if any, and the messages of the
/// protocol-level errors it reported.
#[derive(Debug)]
pub struct UpstreamReply<D> {
    pub data: Option<D>,
    pub errors: Vec<String>,
}

/// What came of the outbound query, in the order the stages run: the network
/// call, then the decoding of its body.
#[derive(Debug)]
pub enum Upstream<D> {
    /// The network call failed; the text is the transport's own.
    Unreachable(String),
    /// The body did not decode; the text is the decoder's own.
    Undecodable(String),
    /// The body decoded.
    Answered(UpstreamReply<D>),
}

/// The reply to an order query. A transport failure dominates a decode
/// failure, which dominates reported errors, which dominate missing data.
pub open spec fn order_reply<D>(u: Upstream<D>) -> ReplyView<D> {
    match u {
        Upstream::Unreachable(_) => ReplyView::Failure(ErrorKind::Internal, UPSTREAM_UNREACHABLE@),
        Upstream::Undecodable(_) => ReplyView::Failure(ErrorKind::Internal, UPSTREAM_UNDECODABLE@),
        Upstream::Answered(a) => if a.errors@.len() > 0 {
            ReplyView::Failure(ErrorKind::Internal, UPSTREAM_ERRORS@)
        } else {
            match a.data {
                Some(d) => ReplyView::Success(d),
                None => ReplyView::Failure(ErrorKind::NotFound, UPSTREAM_NO_DATA@),
            }
        },
    }
}

/// Classifies the outcome of the outbound order query into the response
/// envelope. Data is passed through unchanged, and only when no error was reported.
pub fn respond_to_orders<D>(upstream: Upstream<D>) -> (r: Envelope<D>)
    ensures
        r@ == order_reply(upstream),
{
    match upstream {
        Upstream::Unreachable(_) => Envelope::failure(
            ErrorKind::Internal,
            String::from_str(UPSTREAM_UNREACHABLE),
        ),
        Upstream::Undecodable(_) => Envelope::failure(
            ErrorKind::Internal,
            String::from_str(UPSTREAM_UNDECODABLE),
        ),
        Upstream::Answered(a) => {
            if a.errors.len() > 0 {
                Envelope::failure(ErrorKind::Internal, String::from_str(UPSTREAM_ERRORS))
            } else {
                match a.data {
                    Some(d) => Envelope::Success(d),
                    None => Envelope::failure(
                        ErrorKind::NotFound,
                        String::from_str(UPSTREAM_NO_DATA),
                    ),
                }
            }
        },
    }
}

/// Data that the upstream returns with no errors is answered with status 200
/// and comes back exactly as it was given.
pub proof fn lemma_orders_pass_data_through<D>(reply: UpstreamReply<D>)
    requires
        reply.errors@.len() == 0,
        reply.data is Some,
    ensures
        status_of(order_reply(Upstream::Answered(reply))) == STATUS_OK,
        payload_of(order_reply(Upstream::Answered(reply))) == reply.data,
{
}

/// When the upstream reports errors, the reply is a 500 that holds no data,
/// whatever data came alongside.
pub proof fn lemma_orders_errors_withhold_data<D>(reply: UpstreamReply<D>)
    requires
        reply.errors@.len() > 0,
    ensures
        status_of(order_reply(Upstream::Answered(reply))) == STATUS_INTERNAL,
        message_of(order_reply(Upstream::Answered(reply))) == UPSTREAM_ERRORS@,
        payload_of(order_reply(Upstream::Answered(reply))) is None,
{
}

/// A failed network call gives a 500 with a fixed message, whatever the
/// transport reported.
pub proof fn lemma_orders_unreachable_is_internal<D>(detail: String)
    ensures
        status_of(order_reply(Upstream::<D>::Unreachable(detail))) == STATUS_INTERNAL,
        message_of(order_reply(Upstream::<D>::Unreachable(detail))) == UPSTREAM_UNREACHABLE@,
        payload_of(order_reply(Upstream::<D>::Unreachable(detail))) is None,
{
}

} // verus!
