use vstd::prelude::*;

use crate::errors::Error;

verus! {

/// The reply to a request for a window's pid attribute, as plain values: the
/// format the server reported and the attribute's 32-bit items, present only
/// when the reply could be read as such items.
#[derive(Debug, PartialEq, Eq)]
pub struct CardinalReply {
    pub format: u8,
    pub values: Option<Vec<u32>>,
}

/// One record of a client-resource query: its kind mask and its values.
#[derive(Debug, PartialEq, Eq)]
pub struct ClientIdRecord {
    pub mask: u32,
    pub values: Vec<u32>,
}

/// What pid resolution does once the primary attribute has been read.
#[derive(Debug)]
pub enum PidStep {
    /// The primary attribute named this process.
    Resolved(u32),
    /// The primary attribute failed with this error: query the client resources.
    QueryClientIds(Error),
}

/// The X-Resource mask bit that tags a record as the local client's pid.
pub open spec fn local_client_pid_bit() -> u32 {
    2
}

/// What the primary attribute gives: its first item when the reply is in
/// 32-bit format and holds one, else the reason it does not.
pub open spec fn cardinal_of(reply: Result<CardinalReply, Error>) -> Result<u32, Error> {
    match reply {
        Err(e) => Err(e),
        Ok(p) => if p.format != 32 {
            Err(Error::Other("Invalid property format"))
        } else {
            match p.values {
                None => Err(Error::Other("Cannot iterate u32 values")),
                Some(v) => if v@.len() == 0 {
                    Err(Error::Other("Empty response"))
                } else {
                    Ok(v@[0])
                },
            }
        },
    }
}

/// The step that follows the primary attribute's outcome.
pub open spec fn step_of(primary: Result<u32, Error>) -> PidStep {
    match primary {
        Ok(pid) => PidStep::Resolved(pid),
        Err(e) => PidStep::QueryClientIds(e),
    }
}

/// A primary reply that is in 32-bit format and holds an item.
pub open spec fn well_formed(reply: Result<CardinalReply, Error>) -> bool {
    reply is Ok && reply->Ok_0.format == 32 && reply->Ok_0.values is Some
        && reply->Ok_0.values->Some_0@.len() > 0
}

/// A record that names the local client's pid.
pub open spec fn names_local_pid(r: ClientIdRecord) -> bool {
    r.mask == local_client_pid_bit() && r.values@.len() > 0
}

/// The first value of the first record that names the local client's pid.
pub open spec fn first_local_pid(ids: Seq<ClientIdRecord>) -> Option<u32>
    decreases ids.len(),
{
    if ids.len() == 0 {
        None
    } else if names_local_pid(ids[0]) {
        Some(ids[0].values@[0])
    } else {
        first_local_pid(ids.drop_first())
    }
}

/// Relies on x11rb's `ClientIdMask::LOCAL_CLIENT_PID`, whose bit is `1 << 1`.
#[verifier::external_body]
fn local_client_pid_mask() -> (r: u32)
    ensures
        r == local_client_pid_bit(),
{
    u32::from(x11rb::protocol::res::ClientIdMask::LOCAL_CLIENT_PID)
}

/// Reads a pid out of the reply for the primary attribute.
pub fn get_cardinal(reply: Result<CardinalReply, Error>) -> (r: Result<u32, Error>)
    ensures
        r == cardinal_of(reply),
{
    match reply {
        Err(e) => Err(e),
        Ok(p) => {
            if p.format != 32 {
                Err(Error::Other("Invalid property format"))
            } else {
                match p.values {
                    None => Err(Error::Other("Cannot iterate u32 values")),
                    Some(v) => {
                        if v.len() == 0 {
                            Err(Error::Other("Empty response"))
                        } else {
                            Ok(v[0])
                        }
                    },
                }
            }
        },
    }
}

/// Decides, from the primary attribute's outcome, whether the pid is known or
/// the client resources must be asked.
pub fn pid_from_primary(primary: Result<u32, Error>) -> (r: PidStep)
    ensures
        r == step_of(primary),
{
    match primary {
        Ok(pid) => PidStep::Resolved(pid),
        Err(e) => PidStep::QueryClientIds(e),
    }
}

/// Picks the pid out of the client-resource records.
pub fn select_local_client_pid(ids: &Vec<ClientIdRecord>) -> (r: Option<u32>)
    ensures
        r == first_local_pid(ids@),
{
    let mask = local_client_pid_mask();
    let mut i: usize = 0;
    assert(ids@.subrange(0, ids@.len() as int) =~= ids@);
    while i < ids.len()
        invariant
            i <= ids@.len(),
            mask == local_client_pid_bit(),
            first_local_pid(ids@) == first_local_pid(ids@.subrange(i as int, ids@.len() as int)),
        decreases ids@.len() - i,
    {
        proof {
            let rest = ids@.subrange(i as int, ids@.len() as int);
            assert(rest.drop_first() =~= ids@.subrange(i + 1, ids@.len() as int));
        }
        let rec = &ids[i];
        if rec.mask == mask && rec.values.len() > 0 {
            return Some(rec.values[0]);
        }
        i = i + 1;
    }
    None
}

/// The records of a client-resource query, with the reason for a failure dropped.
pub open spec fn records_view(reply: Result<Vec<ClientIdRecord>, Error>) -> Option<
    Seq<ClientIdRecord>,
> {
    match reply {
        Ok(ids) => Some(ids@),
        Err(_) => None,
    }
}

/// Whether an error is a resolution failure that keeps this primary error.
pub open spec fn wraps_primary(r: Result<u32, Error>, primary_error: Error) -> bool {
    match r {
        Err(Error::ResolutionFailure(inner)) => *inner == primary_error,
        _ => false,
    }
}

/// The outcome of pid resolution once the primary source failed: the pid that
/// the client-resource records name, else a resolution failure that keeps the
/// primary error.
pub open spec fn fallback_resolves(
    primary_error: Error,
    records: Option<Seq<ClientIdRecord>>,
    r: Result<u32, Error>,
) -> bool {
    match records {
        Some(ids) => match first_local_pid(ids) {
            Some(pid) => r == Ok::<u32, Error>(pid),
            None => wraps_primary(r, primary_error),
        },
        None => wraps_primary(r, primary_error),
    }
}

/// Finishes pid resolution from the client-resource query: the pid it names,
/// or else (the query failed, or no record names the local client's pid) a
/// resolution failure that keeps the primary source's error.
pub fn pid_from_client_ids(primary_error: Error, reply: Result<Vec<ClientIdRecord>, Error>) -> (r:
    Result<u32, Error>)
    ensures
        fallback_resolves(primary_error, records_view(reply), r),
{
    match reply {
        Err(_) => Err(Error::ResolutionFailure(Box::new(primary_error))),
        Ok(ids) => match select_local_client_pid(&ids) {
            Some(pid) => Ok(pid),
            None => Err(Error::ResolutionFailure(Box::new(primary_error))),
        },
    }
}

/// When the primary attribute exists and is well formed, its first item is the
/// pid and the client resources are never asked.
pub proof fn lemma_well_formed_primary_skips_fallback(reply: Result<CardinalReply, Error>)
    requires
        well_formed(reply),
    ensures
        step_of(cardinal_of(reply)) == PidStep::Resolved(reply->Ok_0.values->Some_0@[0]),
{
}

/// When the primary attribute fails in any way (the request fails, the format
/// is not 32, the items cannot be read or there are none), the client
/// resources are asked, with the primary failure kept for the final error.
pub proof fn lemma_failed_primary_queries_fallback(reply: Result<CardinalReply, Error>)
    requires
        !well_formed(reply),
    ensures
        step_of(cardinal_of(reply)) == PidStep::QueryClientIds(cardinal_of(reply)->Err_0),
        cardinal_of(reply) is Err,
{
}

/// Whenever the primary attribute fails in any way (absent, not in 32-bit
/// format, empty, or the window gone) and the client-resource records name a
/// local client pid, resolution asks the records and ends with that pid; the
/// primary attribute's content is never taken for the pid.
pub proof fn lemma_failed_primary_resolves_by_records(
    reply: Result<CardinalReply, Error>,
    ids: Seq<ClientIdRecord>,
    pid: u32,
    r: Result<u32, Error>,
)
    requires
        !well_formed(reply),
        first_local_pid(ids) == Some(pid),
        step_of(cardinal_of(reply)) matches PidStep::QueryClientIds(e) ==> fallback_resolves(
            e,
            Some(ids),
            r,
        ),
    ensures
        step_of(cardinal_of(reply)) is QueryClientIds,
        r == Ok::<u32, Error>(pid),
{
}

/// When neither source names a process, resolution fails with a resolution
/// failure that keeps the primary source's error.
pub proof fn lemma_no_source_keeps_primary_error(
    reply: Result<CardinalReply, Error>,
    records: Option<Seq<ClientIdRecord>>,
    r: Result<u32, Error>,
)
    requires
        !well_formed(reply),
        records matches Some(ids) ==> first_local_pid(ids) is None,
        step_of(cardinal_of(reply)) matches PidStep::QueryClientIds(e) ==> fallback_resolves(
            e,
            records,
            r,
        ),
    ensures
        wraps_primary(r, cardinal_of(reply)->Err_0),
{
}

} // verus!
