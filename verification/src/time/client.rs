//! Low level client of the time server.
use vstd::prelude::*;
use crate::ipc::{self, CallError, KHandles, HandleView, no_handles};
use super::messages::{Type, TimeServerError, GetWallTimeQueryParameters, GetWallTimeReply, PORT_NAME, VERSION};

verus! {

pub type TimeServerCallError = CallError<TimeServerError>;

#[verifier::external_type_specification]
#[verifier::external_body]
pub struct ExUtcDateTime(time::UtcDateTime);

/// Smallest second since the Unix epoch that a date-time can hold: the start
/// of the year -9999.
pub const MIN_UNIX_SECONDS: i128 = -377_705_116_800;

/// Largest second since the Unix epoch that a date-time can hold: the last
/// second of the year 9999.
pub const MAX_UNIX_SECONDS: i128 = 253_402_300_799;

/// A timestamp in nanoseconds that a date-time can hold.
pub open spec fn timestamp_in_range(nanos: i128) -> bool {
    MIN_UNIX_SECONDS <= nanos / 1_000_000_000 <= MAX_UNIX_SECONDS
}

/// The date-time that `time::UtcDateTime::from_unix_timestamp_nanos` builds from
/// `nanos` nanoseconds since the Unix epoch.
pub uninterp spec fn utc_of_nanos(nanos: i128) -> time::UtcDateTime;

/// Calls `time::UtcDateTime::from_unix_timestamp_nanos`, which builds the date-time
/// from nanoseconds since the Unix epoch. Its source fails exactly when the second
/// (the timestamp divided by 10^9, rounded down) lies outside the range of years
/// -9999 to 9999; otherwise the date-time depends on `nanos` alone, and is named
/// by `utc_of_nanos`.
#[verifier::external_body]
fn utc_from_unix_timestamp_nanos(nanos: i128) -> (r: Option<time::UtcDateTime>)
    ensures
        r is Some <==> timestamp_in_range(nanos),
        r matches Some(d) ==> d == utc_of_nanos(nanos),
{
    time::UtcDateTime::from_unix_timestamp_nanos(nanos).ok()
}

/// Low level time client implementation.
pub struct Client {
    ipc_client: ipc::Client,
}

impl Client {
    /// The port and version this client talks to.
    pub closed spec fn ipc(&self) -> ipc::Client {
        self.ipc_client
    }

    /// Creates a new time client.
    pub fn new() -> (r: Self)
        ensures
            r.ipc().spec_port_name() == PORT_NAME@,
            r.ipc().spec_version() == VERSION,
    {
        Self { ipc_client: ipc::Client::new(PORT_NAME, VERSION) }
    }

    /// call ipc GetWallTime
    ///
    /// The server answers with a timestamp that a date-time can hold; the
    /// result is the date-time of that timestamp.
    pub fn get_wall_time<F>(&self, call: F) -> (r: Result<time::UtcDateTime, TimeServerCallError>)
        where
            F: FnOnce(&ipc::Client, Type, GetWallTimeQueryParameters, KHandles) -> (KHandles, Result<(GetWallTimeReply, KHandles), TimeServerCallError>),
        requires
            forall|h: KHandles| #![trigger h@]
                h@ == no_handles() ==> call.requires((&self.ipc(), Type::GetWallTime, GetWallTimeQueryParameters {}, h)),
            forall|a: (&ipc::Client, Type, GetWallTimeQueryParameters, KHandles), out: (KHandles, Result<(GetWallTimeReply, KHandles), TimeServerCallError>)|
                #[trigger] call.ensures(a, out) && out.1 is Ok ==> timestamp_in_range(out.1->Ok_0.0.timestamp.nanos()),
        ensures
            exists|h: KHandles, out: (KHandles, Result<(GetWallTimeReply, KHandles), TimeServerCallError>)| {
                &&& h@ == no_handles()
                &&& #[trigger] call.ensures((&self.ipc(), Type::GetWallTime, GetWallTimeQueryParameters {}, h), out)
                &&& match out.1 {
                    Ok(rep) => r == Ok::<time::UtcDateTime, TimeServerCallError>(utc_of_nanos(rep.0.timestamp.nanos())),
                    Err(e) => r is Err && r->Err_0 == e,
                }
            },
    {
        let query = GetWallTimeQueryParameters {};
        let query_handles = KHandles::new();
        let (_lent, res) = call(&self.ipc_client, Type::GetWallTime, query, query_handles);
        match res {
            Ok((reply, _reply_handles)) => {
                let timestamp: i128 = i128::from(reply.timestamp);
                match utc_from_unix_timestamp_nanos(timestamp) {
                    Some(t) => Ok(t),
                    None => {
                        proof {
                            assert(false);
                        }
                        Err(CallError::KernelError(0))
                    },
                }
            },
            Err(e) => Err(e),
        }
    }
}

} // verus!
