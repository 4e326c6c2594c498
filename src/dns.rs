//! DNS reconciliation: for one domain name and one address, find the zone
//! that owns the name, look up the records of the address's family, and
//! create one record or update the single one that exists.
//!
//! The provider is reached by the caller: `DnsReconciler::step` takes what
//! the provider answered and says which call to make next.
use crate::domain::{base_domain, is_base_domain};
use vstd::prelude::*;
use vstd::string::*;

verus! {

/// The family of an IP address.
#[derive(PartialEq, Eq, Structural, Clone, Copy, Debug)]
pub enum AddressFamily {
    V4,
    V6,
}

/// An IP address as the provider receives it: its family and its text.
pub struct IpAddress {
    pub family: AddressFamily,
    pub text: String,
}

/// The record type that holds addresses of `family`.
pub open spec fn record_type_of(family: AddressFamily) -> Seq<char> {
    match family {
        AddressFamily::V4 => seq!['A'],
        AddressFamily::V6 => seq!['A', 'A', 'A', 'A'],
    }
}

/// The record type that holds addresses of `family`: `A` or `AAAA`.
pub fn type_string(family: AddressFamily) -> (r: &'static str)
    ensures
        r@ == record_type_of(family),
{
    match family {
        AddressFamily::V4 => {
            proof {
                reveal_strlit("A");
            }
            "A"
        },
        AddressFamily::V6 => {
            proof {
                reveal_strlit("AAAA");
            }
            "AAAA"
        },
    }
}

/// A zone as the provider lists it.
pub struct ZoneInfo {
    pub id: String,
    pub name: String,
}

/// A DNS record as the provider lists it.
pub struct DnsRecord {
    pub id: String,
    pub record_type: String,
    pub name: String,
    pub content: String,
    pub ttl: u32,
    pub proxied: bool,
}

/// The fields of a record to create or to update.
pub struct DnsRecordBody {
    pub record_type: String,
    pub name: String,
    pub comment: String,
    pub content: String,
    pub ttl: u32,
    pub proxied: bool,
}

/// What the provider answered to one call.
pub enum ProviderReply<T> {
    /// The call did not complete; the text says why.
    Unreachable(String),
    /// The provider's envelope: its success flag and its payload, `None`
    /// when the payload was absent or malformed.
    Answered { success: bool, result: Option<T> },
}

/// Why a reconciliation failed.
#[derive(PartialEq, Eq, Structural, Clone, Copy, Debug)]
pub enum DnsError {
    /// A call to the provider did not complete.
    Unreachable,
    /// Listing zones failed or gave no usable list.
    ZoneLookupFailed,
    /// No zone is registered for the base domain.
    NoZone,
    /// More than one zone matched the base domain.
    AmbiguousZone,
    /// Listing records failed or gave no usable list.
    RecordLookupFailed,
    /// More than one record of the address's type exists for the name.
    ConflictingRecords,
    /// The provider refused to create or update the record.
    WriteFailed,
    /// An answer came that the reconciliation was not waiting for.
    OutOfOrder,
}

/// A call to make on the provider, or the end of the reconciliation.
pub enum DnsAction {
    ListZones { name: String },
    ListRecords { zone_id: String, name: String, page: u32 },
    CreateRecord { zone_id: String, body: DnsRecordBody },
    UpdateRecord { zone_id: String, record_id: String, body: DnsRecordBody },
    Done(Result<(), DnsError>),
}

/// An input to the reconciliation: the start, or what the provider answered.
pub enum DnsEvent {
    Begin,
    ZonesListed(ProviderReply<Vec<ZoneInfo>>),
    RecordsListed(ProviderReply<Vec<DnsRecord>>),
    RecordWritten(ProviderReply<()>),
}

/// Where a reconciliation stands.
pub enum DnsStage {
    Start,
    AwaitingZones,
    AwaitingRecords { zone_id: String },
    AwaitingWrite,
    Finished(Result<(), DnsError>),
}

/// The comment put on a record that reconciliation creates.
pub open spec fn created_comment() -> Seq<char> {
    "Record created by pond"@
}

/// The comment put on a record that reconciliation updates.
pub open spec fn updated_comment() -> Seq<char> {
    "Record updated by pond"@
}

/// The payload of a successful answer; `None` for a failed call, an answer
/// whose success flag is false, or one without a usable payload.
pub open spec fn reply_payload<T>(r: ProviderReply<T>) -> Option<T> {
    match r {
        ProviderReply::Answered { success: true, result: Some(v) } => Some(v),
        _ => None,
    }
}

/// The zone that a zone listing designates, or why there is none.
pub open spec fn zone_outcome(r: ProviderReply<Vec<ZoneInfo>>) -> Result<ZoneInfo, DnsError> {
    match r {
        ProviderReply::Unreachable(_) => Err(DnsError::Unreachable),
        ProviderReply::Answered { success, result } => {
            if !success {
                Err(DnsError::ZoneLookupFailed)
            } else {
                match result {
                    None => Err(DnsError::ZoneLookupFailed),
                    Some(zones) => {
                        if zones@.len() == 0 {
                            Err(DnsError::NoZone)
                        } else if zones@.len() > 1 {
                            Err(DnsError::AmbiguousZone)
                        } else {
                            Ok(zones@[0])
                        }
                    },
                }
            }
        },
    }
}

/// The records of `records` whose type holds addresses of `family`.
pub open spec fn matching_records(records: Seq<DnsRecord>, family: AddressFamily) -> Seq<DnsRecord> {
    records.filter(|r: DnsRecord| r.record_type@ == record_type_of(family))
}

/// `b` is the body of a new record for `domain` pointing at `address`.
pub open spec fn is_create_body(
    b: DnsRecordBody,
    domain: Seq<char>,
    address: IpAddress,
    ttl: u32,
    proxied: bool,
) -> bool {
    &&& b.record_type@ == record_type_of(address.family)
    &&& b.name@ == domain
    &&& b.comment@ == created_comment()
    &&& b.content@ == address.text@
    &&& b.ttl == ttl
    &&& b.proxied == proxied
}

/// `b` is the body that points the existing `record` at `address`, keeping
/// its type and name.
pub open spec fn is_update_body(
    b: DnsRecordBody,
    record: DnsRecord,
    address: IpAddress,
    ttl: u32,
    proxied: bool,
) -> bool {
    &&& b.record_type@ == record.record_type@
    &&& b.name@ == record.name@
    &&& b.comment@ == updated_comment()
    &&& b.content@ == address.text@
    &&& b.ttl == ttl
    &&& b.proxied == proxied
}

/// The outcome of a create or update call.
pub open spec fn write_outcome(r: ProviderReply<()>) -> Result<(), DnsError> {
    match r {
        ProviderReply::Unreachable(_) => Err(DnsError::Unreachable),
        ProviderReply::Answered { success, result: _ } => {
            if success {
                Ok(())
            } else {
                Err(DnsError::WriteFailed)
            }
        },
    }
}

/// Reconciles one DNS record: the name, the address, and the TTL and proxy
/// flag that a created or updated record gets.
pub struct DnsReconciler {
    pub domain_name: String,
    pub address: IpAddress,
    pub ttl: u32,
    pub proxied: bool,
    pub stage: DnsStage,
}

/// The stage and action that follow `event` in stage `stage`, for the
/// reconciler's fixed name, address, TTL and proxy flag.
pub open spec fn is_step(
    s: DnsReconciler,
    event: DnsEvent,
    stage: DnsStage,
    action: DnsAction,
) -> bool {
    match s.stage {
        DnsStage::Finished(o) => stage == DnsStage::Finished(o) && action == DnsAction::Done(o),
        DnsStage::Start => match event {
            DnsEvent::Begin => stage == DnsStage::AwaitingZones && match action {
                DnsAction::ListZones { name } => is_base_domain(s.domain_name@, name@),
                _ => false,
            },
            _ => is_failure(stage, action, DnsError::OutOfOrder),
        },
        DnsStage::AwaitingZones => match event {
            DnsEvent::ZonesListed(reply) => match zone_outcome(reply) {
                Ok(zone) => match (stage, action) {
                    (
                        DnsStage::AwaitingRecords { zone_id },
                        DnsAction::ListRecords { zone_id: listed, name, page },
                    ) => zone_id@ == zone.id@ && listed@ == zone.id@ && name@ == s.domain_name@
                        && page == 1,
                    _ => false,
                },
                Err(e) => is_failure(stage, action, e),
            },
            _ => is_failure(stage, action, DnsError::OutOfOrder),
        },
        DnsStage::AwaitingRecords { zone_id } => match event {
            DnsEvent::RecordsListed(reply) => match reply {
                ProviderReply::Unreachable(_) => is_failure(stage, action, DnsError::Unreachable),
                _ => match reply_payload(reply) {
                    None => is_failure(stage, action, DnsError::RecordLookupFailed),
                    Some(records) => {
                        let m = matching_records(records@, s.address.family);
                        if m.len() == 0 {
                            stage == DnsStage::AwaitingWrite && match action {
                                DnsAction::CreateRecord { zone_id: z, body } => z@ == zone_id@
                                    && is_create_body(
                                    body,
                                    s.domain_name@,
                                    s.address,
                                    s.ttl,
                                    s.proxied,
                                ),
                                _ => false,
                            }
                        } else if m.len() == 1 {
                            stage == DnsStage::AwaitingWrite && match action {
                                DnsAction::UpdateRecord { zone_id: z, record_id, body } => z@
                                    == zone_id@ && record_id@ == m[0].id@ && is_update_body(
                                    body,
                                    m[0],
                                    s.address,
                                    s.ttl,
                                    s.proxied,
                                ),
                                _ => false,
                            }
                        } else {
                            is_failure(stage, action, DnsError::ConflictingRecords)
                        }
                    },
                },
            },
            _ => is_failure(stage, action, DnsError::OutOfOrder),
        },
        DnsStage::AwaitingWrite => match event {
            DnsEvent::RecordWritten(reply) => stage == DnsStage::Finished(write_outcome(reply))
                && action == DnsAction::Done(write_outcome(reply)),
            _ => is_failure(stage, action, DnsError::OutOfOrder),
        },
    }
}

/// The reconciliation ends with error `e`.
pub open spec fn is_failure(stage: DnsStage, action: DnsAction, e: DnsError) -> bool {
    stage == DnsStage::Finished(Err(e)) && action == DnsAction::Done(Err(e))
}

/// The zone that a zone listing designates, or why there is none.
fn select_zone(reply: ProviderReply<Vec<ZoneInfo>>) -> (r: Result<ZoneInfo, DnsError>)
    ensures
        r == zone_outcome(reply),
{
    match reply {
        ProviderReply::Unreachable(_) => Err(DnsError::Unreachable),
        ProviderReply::Answered { success, result } => {
            if !success {
                return Err(DnsError::ZoneLookupFailed);
            }
            match result {
                None => Err(DnsError::ZoneLookupFailed),
                Some(zones) => {
                    let mut zones = zones;
                    if zones.len() == 0 {
                        Err(DnsError::NoZone)
                    } else if zones.len() > 1 {
                        Err(DnsError::AmbiguousZone)
                    } else {
                        match zones.pop() {
                            Some(z) => Ok(z),
                            None => Err(DnsError::NoZone),
                        }
                    }
                },
            }
        },
    }
}

/// Keeps the records whose type holds addresses of `family`, in order.
fn keep_matching(records: Vec<DnsRecord>, family: AddressFamily) -> (r: Vec<DnsRecord>)
    ensures
        r@ == matching_records(records@, family),
{
    let ghost orig = records@;
    let ghost pred = |r: DnsRecord| r.record_type@ == record_type_of(family);
    let wanted = type_string(family);
    let mut rest = records;
    let mut out: Vec<DnsRecord> = Vec::new();
    proof {
        assert(out@ =~= Seq::<DnsRecord>::empty());
        assert(rest@.filter(pred) + out@ =~= orig.filter(pred));
    }
    while rest.len() > 0
        invariant
            rest@.filter(pred) + out@ == orig.filter(pred),
            wanted@ == record_type_of(family),
            pred == (|r: DnsRecord| r.record_type@ == record_type_of(family)),
        decreases rest.len(),
    {
        let ghost before = rest@;
        match rest.pop() {
            Some(x) => {
                proof {
                    reveal(Seq::filter);
                    assert(before.len() > 0);
                    assert(before.drop_last() =~= rest@);
                    assert(before.last() == x);
                    assert(before.filter(pred) == (if pred(x) {
                        rest@.filter(pred).push(x)
                    } else {
                        rest@.filter(pred)
                    }));
                }
                let same = str_eq(x.record_type.as_str(), wanted);
                assert(same == pred(x));
                if same {
                    proof {
                        assert(before.filter(pred) == rest@.filter(pred).push(x));
                        assert(rest@.filter(pred) + seq![x].add(out@) =~= before.filter(pred) + out@);
                    }
                    out.insert(0, x);
                } else {
                    proof {
                        assert(before.filter(pred) == rest@.filter(pred));
                    }
                }
            },
            None => {},
        }
    }
    proof {
        assert(rest@ =~= Seq::<DnsRecord>::empty());
        reveal(Seq::filter);
        assert(rest@.filter(pred) =~= Seq::<DnsRecord>::empty());
        assert(out@ =~= orig.filter(pred));
    }
    out
}

/// Whether two strings hold the same characters.
pub(crate) fn str_eq(a: &str, b: &str) -> (r: bool)
    ensures
        r == (a@ == b@),
{
    let n = a.unicode_len();
    if n != b.unicode_len() {
        return false;
    }
    let mut i: usize = 0;
    while i < n
        invariant
            n == a@.len(),
            n == b@.len(),
            i <= n,
            a@.subrange(0, i as int) == b@.subrange(0, i as int),
        decreases n - i,
    {
        if a.get_char(i) != b.get_char(i) {
            return false;
        }
        proof {
            assert(a@.subrange(0, i + 1) =~= a@.subrange(0, i as int).push(a@[i as int]));
            assert(b@.subrange(0, i + 1) =~= b@.subrange(0, i as int).push(b@[i as int]));
        }
        i = i + 1;
    }
    proof {
        assert(a@ =~= a@.subrange(0, n as int));
        assert(b@ =~= b@.subrange(0, n as int));
    }
    true
}

/// The outcome of a create or update call.
fn check_write(reply: ProviderReply<()>) -> (r: Result<(), DnsError>)
    ensures
        r == write_outcome(reply),
{
    match reply {
        ProviderReply::Unreachable(_) => Err(DnsError::Unreachable),
        ProviderReply::Answered { success, result: _ } => {
            if success {
                Ok(())
            } else {
                Err(DnsError::WriteFailed)
            }
        },
    }
}

impl IpAddress {
    /// A copy of this address.
    pub fn duplicate(&self) -> (r: IpAddress)
        ensures
            r.family == self.family,
            r.text@ == self.text@,
    {
        IpAddress { family: self.family, text: self.text.clone() }
    }
}

impl DnsReconciler {
    /// A reconciliation that points `domain_name` at `address`, not started.
    pub fn new(domain_name: String, address: IpAddress, ttl: u32, proxied: bool) -> (r: Self)
        ensures
            r.domain_name == domain_name,
            r.address == address,
            r.ttl == ttl,
            r.proxied == proxied,
            r.stage == DnsStage::Start,
    {
        DnsReconciler { domain_name, address, ttl, proxied, stage: DnsStage::Start }
    }

    /// The body of a record to create.
    fn create_body(&self) -> (b: DnsRecordBody)
        ensures
            is_create_body(b, self.domain_name@, self.address, self.ttl, self.proxied),
    {
        DnsRecordBody {
            record_type: type_string(self.address.family).to_owned(),
            name: self.domain_name.clone(),
            comment: String::from_str("Record created by pond"),
            content: self.address.text.clone(),
            ttl: self.ttl,
            proxied: self.proxied,
        }
    }

    /// The body that points `record` at this reconciliation's address.
    fn update_body(&self, record: &DnsRecord) -> (b: DnsRecordBody)
        ensures
            is_update_body(b, *record, self.address, self.ttl, self.proxied),
    {
        DnsRecordBody {
            record_type: record.record_type.clone(),
            name: record.name.clone(),
            comment: String::from_str("Record updated by pond"),
            content: self.address.text.clone(),
            ttl: self.ttl,
            proxied: self.proxied,
        }
    }

    /// Ends the reconciliation with `e`.
    fn fail(&mut self, e: DnsError) -> (a: DnsAction)
        ensures
            is_failure(final(self).stage, a, e),
            final(self).domain_name == old(self).domain_name,
            final(self).address == old(self).address,
            final(self).ttl == old(self).ttl,
            final(self).proxied == old(self).proxied,
    {
        self.stage = DnsStage::Finished(Err(e));
        DnsAction::Done(Err(e))
    }

    /// Takes the next event and returns the next call to make on the
    /// provider, or `Done` with the outcome. The zone is looked up under the
    /// base domain; the records under the full name, keeping those of the
    /// address's type: none gives one create, one gives one update of that
    /// record, more than one fails without a write. A failed or unusable
    /// answer ends the reconciliation with its error, and so does an event
    /// that does not fit the stage. Once finished, it stays finished.
    pub fn step(&mut self, event: DnsEvent) -> (a: DnsAction)
        ensures
            is_step(*old(self), event, final(self).stage, a),
            final(self).domain_name == old(self).domain_name,
            final(self).address == old(self).address,
            final(self).ttl == old(self).ttl,
            final(self).proxied == old(self).proxied,
    {
        let finished: Option<Result<(), DnsError>> = match &self.stage {
            DnsStage::Finished(o) => Some(*o),
            _ => None,
        };
        if let Some(o) = finished {
            return DnsAction::Done(o);
        }
        match event {
            DnsEvent::Begin => {
                if !matches!(self.stage, DnsStage::Start) {
                    return self.fail(DnsError::OutOfOrder);
                }
                let name = base_domain(self.domain_name.as_str()).to_owned();
                self.stage = DnsStage::AwaitingZones;
                DnsAction::ListZones { name }
            },
            DnsEvent::ZonesListed(reply) => {
                if !matches!(self.stage, DnsStage::AwaitingZones) {
                    return self.fail(DnsError::OutOfOrder);
                }
                match select_zone(reply) {
                    Err(e) => self.fail(e),
                    Ok(zone) => {
                        let listed = zone.id.clone();
                        self.stage = DnsStage::AwaitingRecords { zone_id: zone.id };
                        DnsAction::ListRecords {
                            zone_id: listed,
                            name: self.domain_name.clone(),
                            page: 1,
                        }
                    },
                }
            },
            DnsEvent::RecordsListed(reply) => {
                let zone_id = match &self.stage {
                    DnsStage::AwaitingRecords { zone_id } => zone_id.clone(),
                    _ => {
                        return self.fail(DnsError::OutOfOrder);
                    },
                };
                match reply {
                    ProviderReply::Unreachable(_) => self.fail(DnsError::Unreachable),
                    ProviderReply::Answered { success, result } => {
                        if !success {
                            return self.fail(DnsError::RecordLookupFailed);
                        }
                        match result {
                            None => self.fail(DnsError::RecordLookupFailed),
                            Some(records) => {
                                let mut m = keep_matching(records, self.address.family);
                                if m.len() == 0 {
                                    let body = self.create_body();
                                    self.stage = DnsStage::AwaitingWrite;
                                    DnsAction::CreateRecord { zone_id, body }
                                } else if m.len() == 1 {
                                    match m.pop() {
                                        Some(record) => {
                                            let body = self.update_body(&record);
                                            self.stage = DnsStage::AwaitingWrite;
                                            DnsAction::UpdateRecord {
                                                zone_id,
                                                record_id: record.id,
                                                body,
                                            }
                                        },
                                        None => self.fail(DnsError::ConflictingRecords),
                                    }
                                } else {
                                    self.fail(DnsError::ConflictingRecords)
                                }
                            },
                        }
                    },
                }
            },
            DnsEvent::RecordWritten(reply) => {
                if !matches!(self.stage, DnsStage::AwaitingWrite) {
                    return self.fail(DnsError::OutOfOrder);
                }
                let o = check_write(reply);
                self.stage = DnsStage::Finished(o);
                DnsAction::Done(o)
            },
        }
    }
}

/// Given the record listing for the zone, the reconciliation decides by the
/// number of records of the address's type: none gives a create, exactly one
/// gives an update of that record, more than one fails without any write.
/// Whatever the write's answer, the reconciliation is then finished, and a
/// finished reconciliation makes no further call whatever event comes.
pub proof fn lemma_one_write_per_reconciliation(
    s: DnsReconciler,
    reply: ProviderReply<Vec<DnsRecord>>,
    stage: DnsStage,
    action: DnsAction,
    written: ProviderReply<()>,
    after: DnsStage,
    last: DnsAction,
    later: DnsEvent,
    end: DnsStage,
    none: DnsAction,
)
    requires
        s.stage is AwaitingRecords,
        reply_payload(reply) is Some,
        is_step(s, DnsEvent::RecordsListed(reply), stage, action),
        is_step(DnsReconciler { stage, ..s }, DnsEvent::RecordWritten(written), after, last),
        is_step(DnsReconciler { stage: after, ..s }, later, end, none),
    ensures
        ({
            let m = matching_records(reply_payload(reply).unwrap()@, s.address.family);
            &&& m.len() == 0 ==> action is CreateRecord
            &&& m.len() == 1 ==> (action is UpdateRecord && action->record_id@ == m[0].id@)
            &&& m.len() > 1 ==> action == DnsAction::Done(Err(DnsError::ConflictingRecords))
        }),
        after is Finished,
        last is Done,
        none is Done,
        end == after,
{
}

} // verus!
