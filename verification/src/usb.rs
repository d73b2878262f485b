use vstd::prelude::*;
use vstd::string::StringExecFns;

use crate::config::{DEFAULT_CLOSE_TIMEOUT_SECS, DEFAULT_TIMEOUT_SECS};
use crate::decimal::{decimal, push_decimal};
use crate::error::ProtocolError;
use crate::timespan::{TimeSpan, NANOS_PER_SEC};

verus! {

/// How much shorter than the exchange limit each bulk transfer's own limit
/// is, in milliseconds, so that a transfer gives up before the exchange does.
pub const BULK_TIMEOUT_MARGIN_MILLIS: u64 = 100;

/// Limit, in milliseconds, on each read that drains stale input after a connect.
pub const FLUSH_READ_TIMEOUT_MILLIS: u64 = 100;

/// Size of the buffer that stale input is drained into after a connect.
pub const FLUSH_BUFFER_LEN: usize = 512;

/// Settings of a USB bulk transport.
#[derive(Debug, Clone)]
pub struct UsbConfig {
    /// Vendor id of the device to open.
    pub vid: u16,
    /// Product id of the device to open.
    pub pid: u16,
    /// Limit on one request/response exchange.
    pub timeout: TimeSpan,
    /// Limit on closing the connection.
    pub close_timeout: TimeSpan,
}

impl Default for UsbConfig {
    fn default() -> (c: Self)
        ensures
            c.vid == 0,
            c.pid == 0,
            c.timeout@ == DEFAULT_TIMEOUT_SECS * NANOS_PER_SEC,
            c.close_timeout@ == DEFAULT_CLOSE_TIMEOUT_SECS * NANOS_PER_SEC,
    {
        UsbConfig {
            vid: 0,
            pid: 0,
            timeout: TimeSpan::from_secs(DEFAULT_TIMEOUT_SECS),
            close_timeout: TimeSpan::from_secs(DEFAULT_CLOSE_TIMEOUT_SECS),
        }
    }
}

impl UsbConfig {
    /// The limit given to each bulk transfer of an exchange: the exchange
    /// limit less the margin, or nothing where the limit is shorter.
    pub fn bulk_timeout(&self) -> (t: TimeSpan)
        ensures
            t@ == if self.timeout@ >= BULK_TIMEOUT_MARGIN_MILLIS * 1_000_000 {
                self.timeout@ - BULK_TIMEOUT_MARGIN_MILLIS * 1_000_000
            } else {
                0
            },
    {
        self.timeout.saturating_sub(&TimeSpan::from_millis(BULK_TIMEOUT_MARGIN_MILLIS))
    }
}

/// The transfer type of an endpoint, as its descriptor gives it.
#[derive(Debug, Clone, Copy, PartialEq, Eq, Structural)]
pub enum TransferKind {
    Control,
    Isochronous,
    Bulk,
    Interrupt,
}

/// The direction of an endpoint, as seen from the host.
#[derive(Debug, Clone, Copy, PartialEq, Eq, Structural)]
pub enum EndpointDirection {
    In,
    Out,
}

/// What an endpoint descriptor says of its endpoint.
#[derive(Debug, Clone, Copy, PartialEq, Eq, Structural)]
pub struct EndpointInfo {
    pub address: u8,
    pub transfer: TransferKind,
    pub direction: EndpointDirection,
}

/// One alternate setting of an interface and its endpoints, in descriptor order.
#[derive(Debug, Clone)]
pub struct AltSetting {
    pub interface_number: u8,
    pub endpoints: Vec<EndpointInfo>,
}

/// The interface to claim and the two bulk endpoints to talk through.
#[derive(Debug, Clone, Copy, PartialEq, Eq, Structural)]
pub struct BulkEndpoints {
    pub interface_number: u8,
    pub in_ep: u8,
    pub out_ep: u8,
}

/// Whether `e` is a bulk endpoint of direction `d`.
pub open spec fn is_bulk_towards(e: EndpointInfo, d: EndpointDirection) -> bool {
    e.transfer == TransferKind::Bulk && e.direction == d
}

/// The address of the last bulk endpoint of direction `d` in `eps`.
pub open spec fn last_bulk(eps: Seq<EndpointInfo>, d: EndpointDirection) -> Option<u8>
    decreases eps.len(),
{
    if eps.len() == 0 {
        None
    } else if is_bulk_towards(eps.last(), d) {
        Some(eps.last().address)
    } else {
        last_bulk(eps.drop_last(), d)
    }
}

/// The bulk pair of an alternate setting: its last bulk IN and its last bulk
/// OUT endpoint, where it has both.
pub open spec fn bulk_pair_of(alt: AltSetting) -> Option<BulkEndpoints> {
    match (last_bulk(alt.endpoints@, EndpointDirection::In), last_bulk(alt.endpoints@, EndpointDirection::Out)) {
        (Some(i), Some(o)) => Some(BulkEndpoints { interface_number: alt.interface_number, in_ep: i, out_ep: o }),
        _ => None,
    }
}

/// The bulk pair of the first alternate setting in `alts` that has one.
pub open spec fn first_pair_in_alts(alts: Seq<AltSetting>) -> Option<BulkEndpoints>
    decreases alts.len(),
{
    if alts.len() == 0 {
        None
    } else {
        match bulk_pair_of(alts[0]) {
            Some(p) => Some(p),
            None => first_pair_in_alts(alts.drop_first()),
        }
    }
}

/// The bulk pair of the first alternate setting, interface by interface and
/// setting by setting in descriptor order, that has one.
pub open spec fn first_bulk_pair(ifaces: Seq<Vec<AltSetting>>) -> Option<BulkEndpoints>
    decreases ifaces.len(),
{
    if ifaces.len() == 0 {
        None
    } else {
        match first_pair_in_alts(ifaces[0]@) {
            Some(p) => Some(p),
            None => first_bulk_pair(ifaces.drop_first()),
        }
    }
}

/// The endpoint found for a direction is the last bulk endpoint of that
/// direction in descriptor order: it is a bulk endpoint of the direction, and
/// none follows it. None is found exactly where the list has none.
pub proof fn law_last_bulk_is_last_of_direction(eps: Seq<EndpointInfo>, d: EndpointDirection)
    ensures
        last_bulk(eps, d) is None <==> forall|k: int|
            0 <= k < eps.len() ==> !is_bulk_towards(#[trigger] eps[k], d),
        last_bulk(eps, d) matches Some(a) ==> exists|k: int|
            0 <= k < eps.len() && is_bulk_towards(#[trigger] eps[k], d) && eps[k].address == a
                && forall|j: int| k < j < eps.len() ==> !is_bulk_towards(#[trigger] eps[j], d),
    decreases eps.len(),
{
    if eps.len() > 0 {
        let rest = eps.drop_last();
        law_last_bulk_is_last_of_direction(rest, d);
        let last = eps.len() - 1;
        if is_bulk_towards(eps[last], d) {
            assert(is_bulk_towards(eps[last], d) && eps[last].address == last_bulk(eps, d).unwrap());
        } else {
            assert forall|k: int| 0 <= k < rest.len() implies rest[k] == eps[k] by {}
            if let Some(a) = last_bulk(rest, d) {
                let k = choose|k: int|
                    0 <= k < rest.len() && is_bulk_towards(#[trigger] rest[k], d) && rest[k].address == a
                        && forall|j: int| k < j < rest.len() ==> !is_bulk_towards(#[trigger] rest[j], d);
                assert(rest[k] == eps[k]);
                assert forall|j: int| k < j < eps.len() implies !is_bulk_towards(#[trigger] eps[j], d) by {
                    if j < rest.len() {
                        assert(rest[j] == eps[j]);
                    }
                }
            } else {
                assert forall|k: int| 0 <= k < eps.len() implies !is_bulk_towards(#[trigger] eps[k], d) by {
                    if k < rest.len() {
                        assert(rest[k] == eps[k]);
                    }
                }
            }
        }
    }
}

/// Among alternate settings, the pair found comes from the earliest setting
/// that has one: that setting has it, and no setting before it has one.
/// None is found exactly where no setting has a pair.
pub proof fn law_first_pair_in_alts_is_earliest(alts: Seq<AltSetting>)
    ensures
        first_pair_in_alts(alts) is None <==> forall|j: int|
            0 <= j < alts.len() ==> bulk_pair_of(#[trigger] alts[j]) is None,
        first_pair_in_alts(alts) matches Some(p) ==> exists|j: int|
            0 <= j < alts.len() && bulk_pair_of(#[trigger] alts[j]) == Some(p)
                && forall|j2: int| 0 <= j2 < j ==> bulk_pair_of(#[trigger] alts[j2]) is None,
    decreases alts.len(),
{
    if alts.len() > 0 {
        let rest = alts.drop_first();
        law_first_pair_in_alts_is_earliest(rest);
        assert forall|j: int| 0 <= j < rest.len() implies rest[j] == alts[j + 1] by {}
        if let Some(p) = bulk_pair_of(alts[0]) {
            assert(bulk_pair_of(alts[0]) == Some(p));
            assert(forall|j2: int| 0 <= j2 < 0 ==> bulk_pair_of(#[trigger] alts[j2]) is None);
        } else {
            if let Some(p) = first_pair_in_alts(rest) {
                let j = choose|j: int|
                    0 <= j < rest.len() && bulk_pair_of(#[trigger] rest[j]) == Some(p)
                        && forall|j2: int| 0 <= j2 < j ==> bulk_pair_of(#[trigger] rest[j2]) is None;
                assert(bulk_pair_of(alts[j + 1]) == Some(p));
                assert forall|j2: int| 0 <= j2 < j + 1 implies bulk_pair_of(#[trigger] alts[j2]) is None by {
                    if j2 > 0 {
                        assert(alts[j2] == rest[j2 - 1]);
                    }
                }
            } else {
                assert forall|j: int| 0 <= j < alts.len() implies bulk_pair_of(#[trigger] alts[j]) is None by {
                    if j > 0 {
                        assert(alts[j] == rest[j - 1]);
                    }
                }
            }
        }
    }
}

/// Whether setting `j` of interface `i` comes before setting `j2` of
/// interface `i2` in descriptor order.
pub open spec fn setting_before(i2: int, j2: int, i: int, j: int) -> bool {
    i2 < i || (i2 == i && j2 < j)
}

/// Over the whole configuration, the pair chosen comes from the earliest
/// setting, interface by interface and setting by setting in descriptor order,
/// that has bulk endpoints in both directions; no earlier setting has them.
/// None is chosen exactly where no setting of any interface has them.
pub proof fn law_first_bulk_pair_is_earliest(ifaces: Seq<Vec<AltSetting>>)
    ensures
        first_bulk_pair(ifaces) is None <==> forall|i: int, j: int|
            0 <= i < ifaces.len() && 0 <= j < ifaces[i]@.len() ==> bulk_pair_of(#[trigger] ifaces[i]@[j]) is None,
        first_bulk_pair(ifaces) matches Some(p) ==> exists|i: int, j: int|
            0 <= i < ifaces.len() && 0 <= j < ifaces[i]@.len() && bulk_pair_of(#[trigger] ifaces[i]@[j]) == Some(p)
                && forall|i2: int, j2: int|
                    0 <= i2 < ifaces.len() && 0 <= j2 < ifaces[i2]@.len() && setting_before(i2, j2, i, j)
                        ==> bulk_pair_of(#[trigger] ifaces[i2]@[j2]) is None,
    decreases ifaces.len(),
{
    if ifaces.len() > 0 {
        let rest = ifaces.drop_first();
        let alts = ifaces[0]@;
        law_first_bulk_pair_is_earliest(rest);
        law_first_pair_in_alts_is_earliest(alts);
        assert forall|i: int| 0 <= i < rest.len() implies rest[i] == ifaces[i + 1] by {}
        if let Some(p) = first_pair_in_alts(alts) {
            let j = choose|j: int|
                0 <= j < alts.len() && bulk_pair_of(#[trigger] alts[j]) == Some(p)
                    && forall|j2: int| 0 <= j2 < j ==> bulk_pair_of(#[trigger] alts[j2]) is None;
            assert(bulk_pair_of(ifaces[0]@[j]) == Some(p));
            assert forall|i2: int, j2: int|
                0 <= i2 < ifaces.len() && 0 <= j2 < ifaces[i2]@.len() && setting_before(i2, j2, 0, j)
                    implies bulk_pair_of(#[trigger] ifaces[i2]@[j2]) is None by {
                assert(i2 == 0);
                assert(bulk_pair_of(alts[j2]) is None);
            }
        } else {
            if let Some(p) = first_bulk_pair(rest) {
                let (i, j) = choose|i: int, j: int|
                    0 <= i < rest.len() && 0 <= j < rest[i]@.len() && bulk_pair_of(#[trigger] rest[i]@[j]) == Some(p)
                        && forall|i2: int, j2: int|
                            0 <= i2 < rest.len() && 0 <= j2 < rest[i2]@.len() && setting_before(i2, j2, i, j)
                                ==> bulk_pair_of(#[trigger] rest[i2]@[j2]) is None;
                assert(ifaces[i + 1]@[j] == rest[i]@[j]);
                assert(bulk_pair_of(ifaces[i + 1]@[j]) == Some(p));
                assert forall|i2: int, j2: int|
                    0 <= i2 < ifaces.len() && 0 <= j2 < ifaces[i2]@.len() && setting_before(i2, j2, i + 1, j)
                        implies bulk_pair_of(#[trigger] ifaces[i2]@[j2]) is None by {
                    if i2 == 0 {
                        assert(bulk_pair_of(alts[j2]) is None);
                    } else {
                        assert(ifaces[i2]@[j2] == rest[i2 - 1]@[j2]);
                        assert(setting_before(i2 - 1, j2, i, j));
                    }
                }
            } else {
                assert forall|i: int, j: int|
                    0 <= i < ifaces.len() && 0 <= j < ifaces[i]@.len()
                        implies bulk_pair_of(#[trigger] ifaces[i]@[j]) is None by {
                    if i == 0 {
                        assert(bulk_pair_of(alts[j]) is None);
                    } else {
                        assert(ifaces[i]@[j] == rest[i - 1]@[j]);
                    }
                }
            }
        }
    }
}

/// Whether setting `alt` has a bulk endpoint of direction `d`.
pub open spec fn has_bulk_towards(alt: AltSetting, d: EndpointDirection) -> bool {
    exists|k: int| 0 <= k < alt.endpoints@.len() && is_bulk_towards(#[trigger] alt.endpoints@[k], d)
}

/// Whether setting `alt` has bulk endpoints in both directions.
pub open spec fn has_bulk_pair(alt: AltSetting) -> bool {
    has_bulk_towards(alt, EndpointDirection::In) && has_bulk_towards(alt, EndpointDirection::Out)
}

/// Whether `a` is the address of the last bulk endpoint of direction `d` in
/// setting `alt`: some bulk endpoint of that direction has it, and no bulk
/// endpoint of that direction follows that one.
pub open spec fn is_last_bulk(alt: AltSetting, d: EndpointDirection, a: u8) -> bool {
    exists|k: int|
        0 <= k < alt.endpoints@.len() && is_bulk_towards(#[trigger] alt.endpoints@[k], d)
            && alt.endpoints@[k].address == a
            && forall|j: int| k < j < alt.endpoints@.len() ==> !is_bulk_towards(#[trigger] alt.endpoints@[j], d)
}

/// Whether `p` is what setting `alt` gives: its interface number, and its
/// last bulk IN and last bulk OUT endpoint.
pub open spec fn pair_taken_from(alt: AltSetting, p: BulkEndpoints) -> bool {
    &&& p.interface_number == alt.interface_number
    &&& is_last_bulk(alt, EndpointDirection::In, p.in_ep)
    &&& is_last_bulk(alt, EndpointDirection::Out, p.out_ep)
}

/// A setting gives a pair exactly where it has bulk endpoints in both
/// directions, and the pair is its interface and its last endpoint of each.
pub proof fn law_bulk_pair_of_setting(alt: AltSetting)
    ensures
        bulk_pair_of(alt) is Some <==> has_bulk_pair(alt),
        bulk_pair_of(alt) matches Some(p) ==> pair_taken_from(alt, p),
{
    let eps = alt.endpoints@;
    law_last_bulk_is_last_of_direction(eps, EndpointDirection::In);
    law_last_bulk_is_last_of_direction(eps, EndpointDirection::Out);
}

fn bulk_pair_in(alt: &AltSetting) -> (r: Option<BulkEndpoints>)
    ensures
        r == bulk_pair_of(*alt),
{
    let mut found_in: Option<u8> = None;
    let mut found_out: Option<u8> = None;
    let mut k: usize = 0;
    while k < alt.endpoints.len()
        invariant
            k <= alt.endpoints@.len(),
            found_in == last_bulk(alt.endpoints@.take(k as int), EndpointDirection::In),
            found_out == last_bulk(alt.endpoints@.take(k as int), EndpointDirection::Out),
        decreases alt.endpoints@.len() - k,
    {
        let ep = alt.endpoints[k];
        assert(alt.endpoints@.take(k + 1).drop_last() =~= alt.endpoints@.take(k as int));
        if ep.transfer == TransferKind::Bulk {
            match ep.direction {
                EndpointDirection::In => found_in = Some(ep.address),
                EndpointDirection::Out => found_out = Some(ep.address),
            }
        }
        k = k + 1;
    }
    assert(alt.endpoints@.take(k as int) =~= alt.endpoints@);
    match (found_in, found_out) {
        (Some(i), Some(o)) => Some(BulkEndpoints { interface_number: alt.interface_number, in_ep: i, out_ep: o }),
        _ => None,
    }
}

fn find_bulk_pair(ifaces: &Vec<Vec<AltSetting>>) -> (r: Option<BulkEndpoints>)
    ensures
        r == first_bulk_pair(ifaces@),
{
    let mut i: usize = 0;
    assert(ifaces@.skip(0) =~= ifaces@);
    while i < ifaces.len()
        invariant
            i <= ifaces@.len(),
            first_bulk_pair(ifaces@) == first_bulk_pair(ifaces@.skip(i as int)),
        decreases ifaces@.len() - i,
    {
        let alts = &ifaces[i];
        assert(ifaces@.skip(i as int).drop_first() =~= ifaces@.skip(i + 1));
        assert(ifaces@.skip(i as int)[0] == *alts);
        let mut j: usize = 0;
        assert(alts@.skip(0) =~= alts@);
        while j < alts.len()
            invariant
                i < ifaces@.len(),
                *alts == ifaces@[i as int],
                first_bulk_pair(ifaces@) == first_bulk_pair(ifaces@.skip(i as int)),
                ifaces@.skip(i as int).drop_first() == ifaces@.skip(i + 1),
                ifaces@.skip(i as int)[0] == *alts,
                j <= alts@.len(),
                first_pair_in_alts(alts@) == first_pair_in_alts(alts@.skip(j as int)),
            decreases alts@.len() - j,
        {
            assert(alts@.skip(j as int).drop_first() =~= alts@.skip(j + 1));
            if let Some(p) = bulk_pair_in(&alts[j]) {
                assert(alts@.skip(j as int)[0] == alts@[j as int]);
                assert(first_pair_in_alts(alts@) == Some(p));
                return Some(p);
            }
            j = j + 1;
        }
        assert(alts@.skip(j as int) =~= Seq::<AltSetting>::empty());
        i = i + 1;
    }
    assert(ifaces@.skip(i as int) =~= Seq::<Vec<AltSetting>>::empty());
    None
}

/// Picks the interface and the bulk IN/OUT endpoint pair to use from the
/// interfaces of a device's active configuration: the first alternate setting,
/// in descriptor order, that has bulk endpoints in both directions, and in it
/// the last of each direction. `EndpointNotFound` where no setting has both.
pub fn select_bulk_endpoints(ifaces: &Vec<Vec<AltSetting>>) -> (r: Result<BulkEndpoints, ProtocolError>)
    ensures
        first_bulk_pair(ifaces@) matches Some(p) ==> r == Ok::<BulkEndpoints, ProtocolError>(p),
        first_bulk_pair(ifaces@) is None ==> r matches Err(ProtocolError::EndpointNotFound),
        r is Err ==> r matches Err(ProtocolError::EndpointNotFound),
        r is Err <==> forall|i: int, j: int|
            0 <= i < ifaces@.len() && 0 <= j < ifaces@[i]@.len() ==> !has_bulk_pair(#[trigger] ifaces@[i]@[j]),
        r matches Ok(p) ==> exists|i: int, j: int|
            0 <= i < ifaces@.len() && 0 <= j < ifaces@[i]@.len() && pair_taken_from(#[trigger] ifaces@[i]@[j], p)
                && forall|i2: int, j2: int|
                    0 <= i2 < ifaces@.len() && 0 <= j2 < ifaces@[i2]@.len() && setting_before(i2, j2, i, j)
                        ==> !has_bulk_pair(#[trigger] ifaces@[i2]@[j2]),
{
    let found = find_bulk_pair(ifaces);
    proof {
        law_first_bulk_pair_is_earliest(ifaces@);
        assert forall|alt: AltSetting| #[trigger] bulk_pair_of(alt) is Some <==> has_bulk_pair(alt) by {
            law_bulk_pair_of_setting(alt);
        }
        if let Some(p) = found {
            let (i, j) = choose|i: int, j: int|
                0 <= i < ifaces@.len() && 0 <= j < ifaces@[i]@.len() && bulk_pair_of(#[trigger] ifaces@[i]@[j]) == Some(p)
                    && forall|i2: int, j2: int|
                        0 <= i2 < ifaces@.len() && 0 <= j2 < ifaces@[i2]@.len() && setting_before(i2, j2, i, j)
                            ==> bulk_pair_of(#[trigger] ifaces@[i2]@[j2]) is None;
            law_bulk_pair_of_setting(ifaces@[i]@[j]);
            assert(pair_taken_from(ifaces@[i]@[j], p));
        }
    }
    match found {
        Some(p) => Ok(p),
        None => Err(ProtocolError::EndpointNotFound),
    }
}

/// The text of the error reported when a bulk read ends before the bytes
/// that were asked for have all come.
pub open spec fn early_eof_text() -> Seq<char> {
    "unexpected EOF on USB read"@
}

/// Collects the bytes of one exact-length bulk read, which the device may
/// deliver in several shorter transfers. The transport asks for
/// [`BulkReader::remaining`] bytes until [`BulkReader::is_complete`] holds.
pub struct BulkReader {
    received: Vec<u8>,
    want: usize,
}

impl BulkReader {
    /// No more bytes have been taken than were asked for.
    pub closed spec fn wf(&self) -> bool {
        self.received@.len() <= self.want
    }

    /// The bytes received so far, in order.
    pub closed spec fn received_bytes(&self) -> Seq<u8> {
        self.received@
    }

    /// The number of bytes the read is for.
    pub closed spec fn wanted(&self) -> nat {
        self.want as nat
    }

    /// A reader for `want` bytes that has received none yet.
    pub fn new(want: usize) -> (r: BulkReader)
        ensures
            r.wf(),
            r.received_bytes() == Seq::<u8>::empty(),
            r.wanted() == want,
    {
        BulkReader { received: Vec::new(), want }
    }

    /// How many bytes are still to come.
    pub fn remaining(&self) -> (n: usize)
        requires
            self.wf(),
        ensures
            self.received_bytes().len() <= self.wanted(),
            n == self.wanted() - self.received_bytes().len(),
    {
        self.want - self.received.len()
    }

    /// Whether every byte asked for has come.
    pub fn is_complete(&self) -> (b: bool)
        requires
            self.wf(),
        ensures
            b == (self.received_bytes().len() == self.wanted()),
    {
        self.received.len() == self.want
    }

    /// Takes the bytes of one transfer, no more than are still to come. A
    /// transfer of no bytes means that the device stopped early: the read
    /// fails with a `DecodeError` and keeps what it had.
    pub fn accept(&mut self, chunk: &[u8]) -> (r: Result<(), ProtocolError>)
        requires
            old(self).received_bytes().len() + chunk@.len() <= old(self).wanted(),
        ensures
            final(self).wf(),
            final(self).wanted() == old(self).wanted(),
            chunk@.len() == 0 <==> r is Err,
            r matches Err(e) ==> e matches ProtocolError::DecodeError(m) && m@ == early_eof_text(),
            r is Err ==> final(self).received_bytes() == old(self).received_bytes(),
            r is Ok ==> final(self).received_bytes() == old(self).received_bytes() + chunk@,
    {
        if chunk.len() == 0 {
            return Err(ProtocolError::DecodeError(String::from_str("unexpected EOF on USB read")));
        }
        self.received.extend_from_slice(chunk);
        assert(self.received@ =~= old(self).received_bytes() + chunk@);
        Ok(())
    }

    /// The bytes received.
    pub fn into_bytes(self) -> (v: Vec<u8>)
        ensures
            v@ == self.received_bytes(),
    {
        self.received
    }
}

/// The text of the error reported when a bulk write takes fewer bytes than
/// the encoded request holds.
pub open spec fn short_write_text(written: nat, expected: nat) -> Seq<char> {
    "write_bulk sent "@ + decimal(written) + " of "@ + decimal(expected) + " bytes"@
}

/// Checks that a bulk write took the whole encoded request: an
/// `EncodeError` naming both counts where it took another number of bytes.
pub fn check_bulk_written(written: usize, expected: usize) -> (r: Result<(), ProtocolError>)
    ensures
        written == expected <==> r is Ok,
        r matches Err(e) ==> e matches ProtocolError::EncodeError(m) && m@ == short_write_text(
            written as nat,
            expected as nat,
        ),
{
    if written == expected {
        return Ok(());
    }
    let mut m = String::new();
    m.append("write_bulk sent ");
    push_decimal(&mut m, written as u64);
    m.append(" of ");
    push_decimal(&mut m, expected as u64);
    m.append(" bytes");
    Err(ProtocolError::EncodeError(m))
}

/// How one read of the drain after a connect ended.
#[derive(Debug, Clone, Copy, PartialEq, Eq, Structural)]
pub enum FlushRead {
    /// Stale bytes were read.
    Data,
    /// Nothing came within the read's limit.
    TimedOut,
    /// The device reported another error.
    Failed,
}

/// What the drain after a connect does next.
#[derive(Debug, Clone, Copy, PartialEq, Eq, Structural)]
pub enum FlushStep {
    /// Read again.
    Continue,
    /// The input is drained; the connect goes on.
    Done,
    /// The connect fails with the device's error.
    Fail,
}

/// The drain reads until a read times out: data means read again, a
/// timeout ends the drain, any other error fails the connect.
pub fn flush_step(read: FlushRead) -> (s: FlushStep)
    ensures
        read == FlushRead::Data ==> s == FlushStep::Continue,
        read == FlushRead::TimedOut ==> s == FlushStep::Done,
        read == FlushRead::Failed ==> s == FlushStep::Fail,
{
    match read {
        FlushRead::Data => FlushStep::Continue,
        FlushRead::TimedOut => FlushStep::Done,
        FlushRead::Failed => FlushStep::Fail,
    }
}

} // verus!
