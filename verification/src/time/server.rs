//! The time server side of the messages: the handler asks the server
//! implementation for the time and frames it as a timestamp.
use vstd::prelude::*;
use std::sync::Arc;
use crate::ipc::{KHandles, no_handles, converted};
use super::client::timestamp_in_range;
use super::messages::{TimeServerError, GetWallTimeQueryParameters, GetWallTimeReply, Timestamp};

verus! {

/// What a time server does; the server framework calls it with the id of
/// the sending process.
pub trait TimeServer {
    type Error: Into<TimeServerError>;

    fn get_wall_time(&self, sender_id: u64) -> Result<time::UtcDateTime, Self::Error>;
}

/// The nanoseconds since the Unix epoch that
/// `time::UtcDateTime::unix_timestamp_nanos` gives for `date_time`.
pub uninterp spec fn nanos_of_utc(date_time: time::UtcDateTime) -> i128;

/// Calls `time::UtcDateTime::unix_timestamp_nanos`: the nanoseconds since the
/// Unix epoch, a function of the date-time alone, named by `nanos_of_utc`. A
/// date-time lies between the years -9999 and 9999, so its second (the result
/// divided by 10^9, rounded down) lies in that range.
#[verifier::external_body]
fn utc_unix_timestamp_nanos(date_time: time::UtcDateTime) -> (r: i128)
    ensures
        timestamp_in_range(r),
        r == nanos_of_utc(date_time),
{
    date_time.unix_timestamp_nanos()
}

/// The time server: an implementation behind the handler of the message.
pub struct Server<Impl: TimeServer> {
    inner: Impl,
}

impl<Impl: TimeServer> Server<Impl> {
    /// The implementation the handlers call.
    pub closed spec fn implementation(&self) -> Impl {
        self.inner
    }

    /// A server over the implementation `inner`.
    pub fn new(inner: Impl) -> (r: Arc<Self>)
        ensures
            (*r).implementation() == inner,
    {
        Arc::new(Server { inner })
    }

    /// GetWallTime: the current time as nanoseconds since the Unix epoch.
    pub fn get_wall_time_handler(&self, query: GetWallTimeQueryParameters, query_handles: KHandles, sender_id: u64)
        -> (r: (KHandles, Result<(GetWallTimeReply, KHandles), TimeServerError>))
        ensures
            r.0@ == query_handles@,
            exists|out: Result<time::UtcDateTime, Impl::Error>| {
                &&& #[trigger] call_ensures(Impl::get_wall_time, (&self.implementation(), sender_id), out)
                &&& match out {
                    Ok(d) => r.1 matches Ok((rep, h)) && rep.timestamp.nanos() == nanos_of_utc(d)
                        && timestamp_in_range(rep.timestamp.nanos()) && h@ == no_handles(),
                    Err(e) => r.1 matches Err(f) && converted(e, f),
                }
            },
    {
        let res = self.inner.get_wall_time(sender_id);
        assert(call_ensures(Impl::get_wall_time, (&self.implementation(), sender_id), res));
        match res {
            Ok(date_time) => {
                let timestamp = Timestamp::from(utc_unix_timestamp_nanos(date_time));
                (query_handles, Ok((GetWallTimeReply { timestamp }, KHandles::new())))
            },
            Err(e) => (query_handles, Err(e.into())),
        }
    }
}

} // verus!
