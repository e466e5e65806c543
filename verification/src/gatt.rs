use vstd::prelude::*;
use vstd::string::StrSliceExecFns;
use crate::config::Config;
use crate::config::default_initial_value;

verus! {

/// A read request as the daemon delivers it to the read callback: the
/// identity of the requesting connection and the requested offset. The
/// handler deliberately ignores the offset (no long-read support).
#[derive(Debug, Clone)]
pub struct ReadRequest {
    pub device: String,
    pub offset: u16,
}

/// A write request as the daemon delivers it to the write callback: the
/// identity of the requesting connection, the payload, and whether the
/// write asks for an acknowledgement.
#[derive(Debug, Clone)]
pub struct WriteRequest {
    pub device: String,
    pub payload: Vec<u8>,
    pub with_response: bool,
}

/// A request of either kind, as the model of the characteristic's history
/// speaks of it.
#[derive(Debug, Clone)]
pub enum GattRequest {
    Read(ReadRequest),
    Write(WriteRequest),
}

/// What the write handler reports back: whether the write is acknowledged
/// as successful, and the best-effort text rendering of the payload that
/// is logged for observability.
#[derive(Debug, Clone)]
pub struct WriteOutcome {
    pub success: bool,
    pub observed_text: String,
}

/// The value served over GATT. It is set once, at start-up, and never
/// changes afterwards: the write handler observes payloads but does not
/// apply them. That asymmetry is a design property of the peripheral,
/// not an oversight.
#[derive(Debug, Clone)]
pub struct DeviceCharacteristic {
    pub value: Vec<u8>,
}

/// What the payload of a write decodes to, for the log. Relies on
/// `String::from_utf8_lossy`: the result depends on the bytes alone
/// (well-formed UTF-8 decodes as itself; ill-formed sequences are replaced
/// with U+FFFD).
pub uninterp spec fn lossy_text_of(bytes: Seq<u8>) -> Seq<char>;

/// Relies on `String::from_utf8_lossy` for the best-effort decoding of a
/// write payload; the decoding is a function of the bytes alone.
#[verifier::external_body]
fn decode_lossy(bytes: &Vec<u8>) -> (r: String)
    ensures
        r@ == lossy_text_of(bytes@),
{
    String::from_utf8_lossy(bytes).into_owned()
}

/// The byte sequence a read request observes on a characteristic.
pub open spec fn spec_read_reply(c: DeviceCharacteristic) -> Seq<u8> {
    c.value@
}

/// The characteristic after one request has been served. No request kind
/// mutates the value: reads are pure, and writes are observed but not
/// applied.
pub open spec fn spec_after_request(c: DeviceCharacteristic, req: GattRequest) -> DeviceCharacteristic {
    c
}

/// The characteristic after a whole sequence of requests has been served.
pub open spec fn spec_after_requests(c: DeviceCharacteristic, reqs: Seq<GattRequest>) -> DeviceCharacteristic
    decreases reqs.len(),
{
    if reqs.len() == 0 {
        c
    } else {
        spec_after_requests(spec_after_request(c, reqs[0]), reqs.skip(1))
    }
}

/// A byte-for-byte copy of a byte vector.
fn copy_bytes(src: &Vec<u8>) -> (r: Vec<u8>)
    ensures
        r@ == src@,
{
    let mut r: Vec<u8> = Vec::new();
    let mut i: usize = 0;
    while i < src.len()
        invariant
            i <= src.len(),
            r@ == src@.take(i as int),
        decreases src.len() - i,
    {
        r.push(src[i]);
        i = i + 1;
        proof {
            assert(r@ =~= src@.take(i as int));
        }
    }
    proof {
        assert(r@ =~= src@);
    }
    r
}

impl DeviceCharacteristic {
    /// A characteristic holding the fixed greeting.
    pub fn new() -> (c: Self)
        ensures
            c.value@ == default_initial_value(),
    {
        DeviceCharacteristic { value: "Hello from Rust BLE Peripheral!".as_bytes_vec() }
    }

    /// A characteristic holding a configured value.
    pub fn with_value(value: Vec<u8>) -> (c: Self)
        ensures
            c.value@ == value@,
    {
        DeviceCharacteristic { value }
    }

    /// The read callback: returns the current value unconditionally,
    /// whatever the requesting device and whatever the offset. It never
    /// fails and never consults the request beyond receiving it.
    pub fn handle_read(&self, req: &ReadRequest) -> (r: Vec<u8>)
        ensures
            r@ == spec_read_reply(*self),
    {
        copy_bytes(&self.value)
    }

    /// The write callback: reports success for every payload, renders the
    /// payload as best-effort text for the log, and leaves the served
    /// value exactly as it was. Writes with and without acknowledgement
    /// are treated alike.
    pub fn handle_write(&mut self, req: &WriteRequest) -> (r: WriteOutcome)
        ensures
            *final(self) == spec_after_request(*old(self), GattRequest::Write(*req)),
            r.success,
            r.observed_text@ == lossy_text_of(req.payload@),
    {
        let text = decode_lossy(&req.payload);
        WriteOutcome { success: true, observed_text: text }
    }
}

/// Descriptor of the single characteristic: its identifier, which
/// capabilities are enabled, and the state its callbacks serve.
pub struct CharacteristicDesc {
    pub uuid: u128,
    pub read_enabled: bool,
    pub write_enabled: bool,
    pub write_without_response: bool,
    pub state: DeviceCharacteristic,
}

/// Descriptor of one GATT service: identifier, primary flag, and its
/// characteristics in order.
pub struct ServiceDesc {
    pub uuid: u128,
    pub primary: bool,
    pub characteristics: Vec<CharacteristicDesc>,
}

/// The attribute tree handed to the daemon for registration.
pub struct ApplicationDesc {
    pub services: Vec<ServiceDesc>,
}

/// The advertising role announced to the daemon.
#[derive(Debug, Clone, Copy, PartialEq, Eq)]
pub enum AdvKind {
    Peripheral,
    Broadcast,
}

/// Descriptor of the advertisement: role, announced service identifiers,
/// local name, discoverability, and transmit power hint in dBm.
pub struct AdvertisementDesc {
    pub kind: AdvKind,
    pub service_uuids: Vec<u128>,
    pub local_name: Option<String>,
    pub discoverable: Option<bool>,
    pub tx_power: Option<i16>,
}

/// Builds the attribute tree: exactly one primary service holding exactly
/// one characteristic that is readable, writable, and accepts writes
/// without acknowledgement, serving the configured initial value. Pure:
/// no daemon interaction happens here.
pub fn build_application(config: &Config) -> (app: ApplicationDesc)
    ensures
        app.services@.len() == 1,
        app.services@[0].uuid == config.service_uuid,
        app.services@[0].primary,
        app.services@[0].characteristics@.len() == 1,
        app.services@[0].characteristics@[0].uuid == config.characteristic_uuid,
        app.services@[0].characteristics@[0].read_enabled,
        app.services@[0].characteristics@[0].write_enabled,
        app.services@[0].characteristics@[0].write_without_response,
        app.services@[0].characteristics@[0].state.value@ == config.initial_value@,
{
    let characteristic = CharacteristicDesc {
        uuid: config.characteristic_uuid,
        read_enabled: true,
        write_enabled: true,
        write_without_response: true,
        state: DeviceCharacteristic::with_value(copy_bytes(&config.initial_value)),
    };
    let mut characteristics: Vec<CharacteristicDesc> = Vec::new();
    characteristics.push(characteristic);
    let service = ServiceDesc { uuid: config.service_uuid, primary: true, characteristics };
    let mut services: Vec<ServiceDesc> = Vec::new();
    services.push(service);
    ApplicationDesc { services }
}

/// Builds the advertisement descriptor: peripheral role, the one service
/// identifier, the configured local name, discoverable, and a zero
/// transmit power hint. Pure: starting the broadcast is the daemon's part.
pub fn build_advertisement(config: &Config) -> (adv: AdvertisementDesc)
    ensures
        adv.kind is Peripheral,
        adv.service_uuids@ =~= seq![config.service_uuid],
        adv.local_name matches Some(n) && n@ == config.local_name@,
        adv.discoverable == Some(true),
        adv.tx_power == Some(0i16),
{
    let mut service_uuids: Vec<u128> = Vec::new();
    service_uuids.push(config.service_uuid);
    AdvertisementDesc {
        kind: AdvKind::Peripheral,
        service_uuids,
        local_name: Some(config.local_name.clone()),
        discoverable: Some(true),
        tx_power: Some(0i16),
    }
}

/// Read idempotence: serving any sequence of requests, reads included,
/// leaves the characteristic as it was, so every read in the sequence
/// observes one and the same byte sequence.
pub proof fn lemma_read_idempotent(c: DeviceCharacteristic, reqs: Seq<GattRequest>)
    ensures
        spec_read_reply(spec_after_requests(c, reqs)) == spec_read_reply(c),
    decreases reqs.len(),
{
    if reqs.len() != 0 {
        lemma_read_idempotent(spec_after_request(c, reqs[0]), reqs.skip(1));
    }
}

/// Write/read decoupling: serving a write request, whatever its payload,
/// leaves the characteristic exactly as it was, so a later read observes
/// the unchanged initial value.
pub proof fn lemma_write_read_decoupled(c: DeviceCharacteristic, req: WriteRequest)
    ensures
        spec_read_reply(spec_after_request(c, GattRequest::Write(req))) == spec_read_reply(c),
{
}

} // verus!
