//! The description that a device sends of itself, and the frame it travels in.

use vstd::prelude::*;

verus! {

/// Tag byte that opens a frame which carries a device description.
pub const DEVICE_SPEC_TAG: u8 = 0;

/// What a device says of itself.
#[derive(Debug, Clone)]
pub struct DeviceSpec {
    pub id: String,
    pub os: String,
    pub os_version: String,
    pub core_num: u8,
    pub ip_addr: String,
    pub port: u16,
    pub status: String,
    pub updated_at: String,
}

/// The system's view of the machine, as the `sysinfo` crate holds it.
#[verifier::external_type_specification]
#[verifier::external_body]
pub struct ExSystem(sysinfo::System);

/// A point in time, as the standard library's clock gives it.
#[verifier::external_type_specification]
#[verifier::external_body]
pub struct ExSystemTime(std::time::SystemTime);

/// `sysinfo::System::new_all` makes a `System` with everything loaded that
/// the crate can learn about the machine. Nothing is claimed of the value.
pub assume_specification[ sysinfo::System::new_all ]() -> (system: sysinfo::System)
;

/// `sysinfo::System::refresh_all` reads the machine's state anew. Nothing is
/// claimed of the value afterwards.
pub assume_specification[ sysinfo::System::refresh_all ](system: &mut sysinfo::System)
;

/// `sysinfo::System::name` gives the operating system's name where the
/// machine tells it. Nothing is claimed of the answer.
pub assume_specification[ sysinfo::System::name ]() -> (name: Option<String>)
;

/// `sysinfo::System::os_version` gives the operating system's version where
/// the machine tells it. Nothing is claimed of the answer.
pub assume_specification[ sysinfo::System::os_version ]() -> (version: Option<String>)
;

/// The length of the list of processors that `sysinfo::System::cpus`
/// returns. Nothing is claimed of the number.
#[verifier::external_body]
fn cpu_count(system: &sysinfo::System) -> (n: usize) {
    system.cpus().len()
}

/// A random identifier from `uuid::Uuid::new_v4`, written out by the crate's
/// `Display`. It is taken on trust that this is the hyphenated form, which
/// has 36 characters, and that the operating system hands out random bytes:
/// the crate gives up where it does not.
#[verifier::external_body]
fn random_id() -> (id: String)
    ensures
        id@.len() == 36,
{
    uuid::Uuid::new_v4().to_string()
}

/// The time that `std::time::SystemTime::now` reads off the clock. Nothing
/// is claimed of it.
#[verifier::external_body]
fn clock_now() -> (now: std::time::SystemTime) {
    std::time::SystemTime::now()
}

/// The time from `std::time::UNIX_EPOCH` to `time`, by
/// `std::time::SystemTime::duration_since`, or `None` where that call
/// fails, which it does for a time before the epoch. Nothing is claimed of
/// the result.
#[verifier::external_body]
fn since_epoch(time: &std::time::SystemTime) -> (elapsed: Option<core::time::Duration>) {
    time.duration_since(std::time::UNIX_EPOCH).ok()
}

/// A span of time as the standard library's `Debug` for
/// `core::time::Duration` writes it. Nothing is claimed of the text.
#[verifier::external_body]
fn debug_text(span: &core::time::Duration) -> (text: String) {
    format!("{:?}", span)
}

/// What is reported where the machine does not tell the name of its system.
pub open spec fn unknown_os() -> Seq<char> {
    "Unknown"@
}

/// What is reported where the machine does not tell the version of its system.
pub open spec fn unknown_version() -> Seq<char> {
    "Unknown version"@
}

/// The status that a device reports of itself.
pub open spec fn active_status() -> Seq<char> {
    "Active"@
}

/// `found`, or `fallback` where nothing was found.
pub open spec fn or_text(found: Option<String>, fallback: Seq<char>) -> Seq<char> {
    match found {
        Some(text) => text@,
        None => fallback,
    }
}

/// The description of a device from what was learnt about it, or `None`
/// where the time of the report could not be told. The device is active, and
/// has no address yet. A system that did not tell its name or version is
/// reported as unknown, and of the number of processors the low eight bits
/// are kept.
pub fn describe(
    id: String,
    os: Option<String>,
    os_version: Option<String>,
    cores: usize,
    updated_at: Option<String>,
) -> (spec: Option<DeviceSpec>)
    ensures
        spec.is_some() <==> updated_at.is_some(),
        spec.is_some() ==> {
            &&& spec.unwrap().id == id
            &&& spec.unwrap().os@ == or_text(os, unknown_os())
            &&& spec.unwrap().os_version@ == or_text(os_version, unknown_version())
            &&& spec.unwrap().core_num == cores % 256
            &&& spec.unwrap().ip_addr@ == Seq::<char>::empty()
            &&& spec.unwrap().port == 0
            &&& spec.unwrap().status@ == active_status()
            &&& spec.unwrap().updated_at == updated_at.unwrap()
        },
{
    let updated_at = match updated_at {
        Some(text) => text,
        None => {
            return None;
        },
    };
    let os = match os {
        Some(name) => name,
        None => "Unknown".to_owned(),
    };
    let os_version = match os_version {
        Some(version) => version,
        None => "Unknown version".to_owned(),
    };
    let core_num: u8 = (cores % 256) as u8;
    Some(
        DeviceSpec {
            id,
            os,
            os_version,
            core_num,
            ip_addr: String::new(),
            port: 0,
            status: "Active".to_owned(),
            updated_at,
        },
    )
}

/// Collects what this machine says of itself, under a fresh random
/// identifier and with the time since the start of 1970 as the moment of
/// the report. Returns `None` where the clock stands before 1970. What the
/// machine answers is not known beforehand; whatever it answers, the device
/// is reported active and without an address.
pub fn get_system_info() -> (spec: Option<DeviceSpec>)
    ensures
        spec.is_some() ==> {
            &&& spec.unwrap().id@.len() == 36
            &&& spec.unwrap().ip_addr@ == Seq::<char>::empty()
            &&& spec.unwrap().port == 0
            &&& spec.unwrap().status@ == active_status()
        },
{
    let mut system = sysinfo::System::new_all();
    system.refresh_all();
    let os = sysinfo::System::name();
    let os_version = sysinfo::System::os_version();
    let cores = cpu_count(&system);
    let now = clock_now();
    let updated_at = match since_epoch(&now) {
        Some(elapsed) => Some(debug_text(&elapsed)),
        None => None,
    };
    describe(random_id(), os, os_version, cores, updated_at)
}

/// `spec` with the address that its connection has on this side.
pub fn with_endpoint(spec: DeviceSpec, ip_addr: String, port: u16) -> (placed: DeviceSpec)
    ensures
        placed.ip_addr == ip_addr,
        placed.port == port,
        placed.id == spec.id,
        placed.os == spec.os,
        placed.os_version == spec.os_version,
        placed.core_num == spec.core_num,
        placed.status == spec.status,
        placed.updated_at == spec.updated_at,
{
    let mut placed = spec;
    placed.ip_addr = ip_addr;
    placed.port = port;
    placed
}

/// The four bytes of `n`, most significant first.
pub open spec fn be32(n: nat) -> Seq<u8> {
    seq![
        ((n / 0x100_0000) % 0x100) as u8,
        ((n / 0x1_0000) % 0x100) as u8,
        ((n / 0x100) % 0x100) as u8,
        (n % 0x100) as u8,
    ]
}

/// The frame that carries `payload`: the tag byte, the length of the
/// payload in four bytes, most significant first, and the payload. Of a
/// length that does not fit in four bytes the low 32 bits are written.
pub open spec fn framed(payload: Seq<u8>) -> Seq<u8> {
    seq![DEVICE_SPEC_TAG] + be32(payload.len() % 0x1_0000_0000) + payload
}

/// The frame in which a serialised device description is sent.
pub fn frame(payload: &[u8]) -> (bytes: Vec<u8>)
    ensures
        bytes@ == framed(payload@),
{
    let size: usize = payload.len();
    let low: u64 = (size as u64) % 0x1_0000_0000;
    let mut bytes: Vec<u8> = Vec::new();
    bytes.push(DEVICE_SPEC_TAG);
    bytes.push(((low / 0x100_0000) % 0x100) as u8);
    bytes.push(((low / 0x1_0000) % 0x100) as u8);
    bytes.push(((low / 0x100) % 0x100) as u8);
    bytes.push((low % 0x100) as u8);
    let ghost head = bytes@;
    assert(head =~= seq![DEVICE_SPEC_TAG] + be32(payload@.len() % 0x1_0000_0000));
    let mut next: usize = 0;
    while next < size
        invariant
            next <= size,
            size == payload@.len(),
            bytes@ == head + payload@.take(next as int),
        decreases size - next,
    {
        bytes.push(payload[next]);
        next = next + 1;
        assert(bytes@ =~= head + payload@.take(next as int));
    }
    assert(payload@.take(size as int) =~= payload@);
    bytes
}

} // verus!
