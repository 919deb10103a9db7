//! macOS audio devices: what the system tools report of them, read into device
//! records, and the lists that the managers keep.
use vstd::prelude::*;

use std::collections::hash_map::DefaultHasher;
use std::hash::{Hash, Hasher};
use vstd::std_specs::hash::DefaultHasherAdditionalSpecFns;

use crate::text::{
    char_index_from, chars_of, contains_seq, decimal, index_of, lines, string_from_range, lines_of, lowercase, push_decimal, quoted_part, quoted_value, str_contains, str_eq,
    string_of, to_lowercase, trim, trimmed,
};

verus! {

/// Kind of a macOS audio device.
#[derive(Clone, Copy, Debug, PartialEq, Eq, Structural)]
pub enum MacAudioDeviceType {
    Microphone,
    Speaker,
    Headphones,
    LineIn,
    LineOut,
    Bluetooth,
    USB,
    Unknown,
}

/// Transport of a Core Audio device.
#[derive(Clone, Copy, Debug, PartialEq, Eq, Structural)]
pub enum CoreAudioDeviceType {
    BuiltIn,
    USB,
    Bluetooth,
    Thunderbolt,
    Virtual,
    Unknown,
}

/// A macOS audio device as `system_profiler` describes it.
#[derive(Debug)]
pub struct MacAudioDevice {
    pub id: u32,
    pub name: String,
    pub device_type: MacAudioDeviceType,
    pub is_input: bool,
    pub is_output: bool,
    pub channels: u32,
    /// Nominal sample rate (Hz).
    pub sample_rate_hz: u32,
}

impl MacAudioDevice {
    pub open spec fn spec_is_microphone(&self) -> bool {
        self.device_type == MacAudioDeviceType::Microphone && self.is_input
    }

    pub open spec fn spec_is_speaker(&self) -> bool {
        (self.device_type == MacAudioDeviceType::Speaker || self.device_type == MacAudioDeviceType::Headphones)
            && self.is_output
    }

    /// A microphone that can record.
    pub fn is_microphone(&self) -> (r: bool)
        ensures
            r == self.spec_is_microphone(),
    {
        matches!(self.device_type, MacAudioDeviceType::Microphone) && self.is_input
    }

    /// A speaker or headphones that can play.
    pub fn is_speaker(&self) -> (r: bool)
        ensures
            r == self.spec_is_speaker(),
    {
        (matches!(self.device_type, MacAudioDeviceType::Speaker) || matches!(
            self.device_type,
            MacAudioDeviceType::Headphones
        )) && self.is_output
    }
}

/// The kind of a device, from its transport and its name: Bluetooth and USB by
/// either, then by words in the lower-cased name.
pub open spec fn mac_device_type_spec(transport: Seq<char>, name: Seq<char>) -> MacAudioDeviceType {
    let l = lowercase(name);
    if transport == "Bluetooth"@ || contains_seq(l, "bluetooth"@) {
        MacAudioDeviceType::Bluetooth
    } else if transport == "USB"@ || contains_seq(l, "usb"@) {
        MacAudioDeviceType::USB
    } else if contains_seq(l, "microphone"@) || contains_seq(l, "mic"@) {
        MacAudioDeviceType::Microphone
    } else if contains_seq(l, "speaker"@) || contains_seq(l, "output"@) {
        MacAudioDeviceType::Speaker
    } else if contains_seq(l, "headphone"@) || contains_seq(l, "headset"@) {
        MacAudioDeviceType::Headphones
    } else if contains_seq(l, "line in"@) {
        MacAudioDeviceType::LineIn
    } else if contains_seq(l, "line out"@) {
        MacAudioDeviceType::LineOut
    } else {
        MacAudioDeviceType::Unknown
    }
}

/// The kind of a device from the transport type and name that `system_profiler`
/// reports (each empty when missing).
pub fn mac_device_type(transport: &str, name: &str) -> (t: MacAudioDeviceType)
    ensures
        t == mac_device_type_spec(transport@, name@),
{
    let lower = to_lowercase(name);
    let l = lower.as_str();
    if str_eq(transport, "Bluetooth") || str_contains(l, "bluetooth") {
        MacAudioDeviceType::Bluetooth
    } else if str_eq(transport, "USB") || str_contains(l, "usb") {
        MacAudioDeviceType::USB
    } else if str_contains(l, "microphone") || str_contains(l, "mic") {
        MacAudioDeviceType::Microphone
    } else if str_contains(l, "speaker") || str_contains(l, "output") {
        MacAudioDeviceType::Speaker
    } else if str_contains(l, "headphone") || str_contains(l, "headset") {
        MacAudioDeviceType::Headphones
    } else if str_contains(l, "line in") {
        MacAudioDeviceType::LineIn
    } else if str_contains(l, "line out") {
        MacAudioDeviceType::LineOut
    } else {
        MacAudioDeviceType::Unknown
    }
}

/// The transport of a Core Audio device, from its transport type and name.
pub open spec fn core_device_type_spec(transport: Seq<char>, name: Seq<char>) -> CoreAudioDeviceType {
    let l = lowercase(name);
    if transport == "Bluetooth"@ || contains_seq(l, "bluetooth"@) {
        CoreAudioDeviceType::Bluetooth
    } else if transport == "USB"@ || contains_seq(l, "usb"@) {
        CoreAudioDeviceType::USB
    } else if transport == "Thunderbolt"@ || contains_seq(l, "thunderbolt"@) {
        CoreAudioDeviceType::Thunderbolt
    } else if contains_seq(l, "built-in"@) {
        CoreAudioDeviceType::BuiltIn
    } else if contains_seq(l, "aggregate"@) {
        CoreAudioDeviceType::Virtual
    } else {
        CoreAudioDeviceType::Unknown
    }
}

/// The transport of a Core Audio device from the transport type and name that
/// `system_profiler` reports (each empty when missing).
pub fn detect_device_type(transport: &str, name: &str) -> (t: CoreAudioDeviceType)
    ensures
        t == core_device_type_spec(transport@, name@),
{
    let lower = to_lowercase(name);
    let l = lower.as_str();
    if str_eq(transport, "Bluetooth") || str_contains(l, "bluetooth") {
        CoreAudioDeviceType::Bluetooth
    } else if str_eq(transport, "USB") || str_contains(l, "usb") {
        CoreAudioDeviceType::USB
    } else if str_eq(transport, "Thunderbolt") || str_contains(l, "thunderbolt") {
        CoreAudioDeviceType::Thunderbolt
    } else if str_contains(l, "built-in") {
        CoreAudioDeviceType::BuiltIn
    } else if str_contains(l, "aggregate") {
        CoreAudioDeviceType::Virtual
    } else {
        CoreAudioDeviceType::Unknown
    }
}

/// The macOS audio devices last enumerated.
pub struct MacAudioManager {
    devices: Vec<MacAudioDevice>,
}

impl MacAudioManager {
    pub closed spec fn spec_devices(&self) -> Seq<MacAudioDevice> {
        self.devices@
    }

    /// A manager that holds no device yet.
    pub fn new() -> (m: Self)
        ensures
            m.spec_devices() == Seq::<MacAudioDevice>::empty(),
    {
        MacAudioManager { devices: Vec::new() }
    }

    /// Replaces the list with a fresh enumeration.
    pub fn set_devices(&mut self, devices: Vec<MacAudioDevice>)
        ensures
            final(self).spec_devices() == devices@,
    {
        self.devices = devices;
    }

    /// All devices.
    pub fn get_devices(&self) -> (d: &[MacAudioDevice])
        ensures
            d@ == self.spec_devices(),
    {
        self.devices.as_slice()
    }

    /// The microphones that can record, in order.
    pub fn get_microphones(&self) -> (r: Vec<&MacAudioDevice>)
        ensures
            r@.map_values(|d: &MacAudioDevice| *d) == self.spec_devices().filter(
                |d: MacAudioDevice| d.spec_is_microphone(),
            ),
    {
        let ghost all = self.devices@;
        let ghost pred = |d: MacAudioDevice| d.spec_is_microphone();
        let mut r: Vec<&MacAudioDevice> = Vec::new();
        let mut i: usize = 0;
        while i < self.devices.len()
            invariant
                i <= all.len(),
                all == self.devices@,
                pred == (|d: MacAudioDevice| d.spec_is_microphone()),
                r@.map_values(|d: &MacAudioDevice| *d) == all.take(i as int).filter(pred),
            decreases all.len() - i,
        {
            let d = &self.devices[i];
            proof {
                assert(all.take(i + 1).drop_last() =~= all.take(i as int));
                assert(all.take(i + 1).last() == *d);
                reveal(Seq::filter);
            }
            if d.is_microphone() {
                let ghost before = r@;
                r.push(d);
                proof {
                    assert(r@.map_values(|d: &MacAudioDevice| *d) =~= before.map_values(
                        |d: &MacAudioDevice| *d,
                    ).push(*d));
                }
            }
            i = i + 1;
        }
        proof {
            assert(all.take(all.len() as int) =~= all);
        }
        r
    }

    /// The speakers and headphones that can play, in order.
    pub fn get_speakers(&self) -> (r: Vec<&MacAudioDevice>)
        ensures
            r@.map_values(|d: &MacAudioDevice| *d) == self.spec_devices().filter(
                |d: MacAudioDevice| d.spec_is_speaker(),
            ),
    {
        let ghost all = self.devices@;
        let ghost pred = |d: MacAudioDevice| d.spec_is_speaker();
        let mut r: Vec<&MacAudioDevice> = Vec::new();
        let mut i: usize = 0;
        while i < self.devices.len()
            invariant
                i <= all.len(),
                all == self.devices@,
                pred == (|d: MacAudioDevice| d.spec_is_speaker()),
                r@.map_values(|d: &MacAudioDevice| *d) == all.take(i as int).filter(pred),
            decreases all.len() - i,
        {
            let d = &self.devices[i];
            proof {
                assert(all.take(i + 1).drop_last() =~= all.take(i as int));
                assert(all.take(i + 1).last() == *d);
                reveal(Seq::filter);
            }
            if d.is_speaker() {
                let ghost before = r@;
                r.push(d);
                proof {
                    assert(r@.map_values(|d: &MacAudioDevice| *d) =~= before.map_values(
                        |d: &MacAudioDevice| *d,
                    ).push(*d));
                }
            }
            i = i + 1;
        }
        proof {
            assert(all.take(all.len() as int) =~= all);
        }
        r
    }

    /// The first device with the given id.
    pub fn find_device_by_id(&self, id: u32) -> (r: Option<&MacAudioDevice>)
        ensures
            match r {
                Some(d) => exists|i: int|
                    0 <= i < self.spec_devices().len() && self.spec_devices()[i] == *d && d.id == id && forall|
                        k: int,
                    | 0 <= k < i ==> (#[trigger] self.spec_devices()[k]).id != id,
                None => forall|k: int| 0 <= k < self.spec_devices().len() ==> (#[trigger] self.spec_devices()[k]).id != id,
            },
    {
        let mut i: usize = 0;
        while i < self.devices.len()
            invariant
                i <= self.devices@.len(),
                forall|k: int| 0 <= k < i ==> (#[trigger] self.devices@[k]).id != id,
            decreases self.devices@.len() - i,
        {
            if self.devices[i].id == id {
                return Some(&self.devices[i]);
            }
            i = i + 1;
        }
        None
    }

    /// The first device whose lower-cased name contains the lower-cased `name`.
    pub fn find_device_by_name(&self, name: &str) -> (r: Option<&MacAudioDevice>)
        ensures
            match r {
                Some(d) => exists|i: int|
                    0 <= i < self.spec_devices().len() && self.spec_devices()[i] == *d && contains_seq(
                        lowercase(d.name@),
                        lowercase(name@),
                    ) && forall|k: int|
                        0 <= k < i ==> !contains_seq(lowercase((#[trigger] self.spec_devices()[k]).name@), lowercase(name@)),
                None => forall|k: int|
                    0 <= k < self.spec_devices().len() ==> !contains_seq(
                        lowercase((#[trigger] self.spec_devices()[k]).name@),
                        lowercase(name@),
                    ),
            },
    {
        let wanted = to_lowercase(name);
        let mut i: usize = 0;
        while i < self.devices.len()
            invariant
                i <= self.devices@.len(),
                wanted@ == lowercase(name@),
                forall|k: int| 0 <= k < i ==> !contains_seq(lowercase((#[trigger] self.devices@[k]).name@), lowercase(name@)),
            decreases self.devices@.len() - i,
        {
            let lower = to_lowercase(self.devices[i].name.as_str());
            if str_contains(lower.as_str(), wanted.as_str()) {
                return Some(&self.devices[i]);
            }
            i = i + 1;
        }
        None
    }
}

/// A Core Audio device.
#[derive(Debug)]
pub struct CoreAudioDevice {
    pub id: u32,
    pub name: String,
    pub device_type: CoreAudioDeviceType,
    pub channels: u32,
    /// Nominal sample rate (Hz).
    pub sample_rate_hz: u32,
    pub is_input: bool,
    pub is_output: bool,
    /// Identifier that names the source the device was found by and its id.
    pub uid: String,
}

/// Sample rate assumed where none is reported (Hz).
pub const DEFAULT_DEVICE_SAMPLE_RATE_HZ: u32 = 44100;

/// The writes a `DefaultHasher` has received after a name was hashed into it, as a
/// function of the writes before and the name.
pub uninterp spec fn hashed_name_state(state: Seq<Seq<u8>>, name: Seq<char>) -> Seq<Seq<u8>>;

/// Feeds a name to a hasher (`<str as Hash>::hash` with `DefaultHasher`). The
/// contract claims only that the hasher's state afterwards depends on nothing but
/// its state before and the name: it is named `hashed_name_state`. Which bytes
/// are written is left unsaid.
#[verifier::external_body]
fn feed_name(name: &str, state: &mut DefaultHasher)
    ensures
        final(state)@ == hashed_name_state(old(state)@, name@),
{
    name.hash(state)
}

/// A device id from a hash of its name: the hash modulo `u32::MAX`.
pub fn device_id_from_hash(hash: u64) -> (id: u32)
    ensures
        id == hash % (u32::MAX as u64),
{
    (hash % (u32::MAX as u64)) as u32
}

/// The id of a device name: the `DefaultHasher` hash of the name (a fresh hasher
/// fed the name) modulo `u32::MAX`.
pub open spec fn device_id_of(name: Seq<char>) -> u32 {
    (DefaultHasher::spec_finish(hashed_name_state(Seq::empty(), name)) % (u32::MAX as u64)) as u32
}

/// A device id derived from the device's name by `DefaultHasher`: the same name
/// always gives the same id, below `u32::MAX`.
pub fn generate_device_id(name: &str) -> (id: u32)
    ensures
        id == device_id_of(name@),
        id < u32::MAX,
{
    let mut hasher = DefaultHasher::new();
    feed_name(name, &mut hasher);
    let hash = hasher.finish();
    device_id_from_hash(hash)
}

/// `prefix` followed by the decimal id.
pub fn tagged_uid(prefix: &str, id: u32) -> (s: String)
    ensures
        s@ == prefix@ + decimal(id as nat),
{
    let mut s = string_of(prefix);
    push_decimal(&mut s, id as u64);
    s
}

/// The devices assumed when no enumeration finds any.
pub fn get_fallback_devices() -> (v: Vec<CoreAudioDevice>)
    ensures
        v@.len() == 3,
        v@[0].id == 1 && v@[0].name@ == "Built-in Microphone"@ && v@[0].device_type == CoreAudioDeviceType::BuiltIn
            && v@[0].channels == 1 && v@[0].sample_rate_hz == DEFAULT_DEVICE_SAMPLE_RATE_HZ && v@[0].is_input
            && !v@[0].is_output && v@[0].uid@ == "builtin_mic"@,
        v@[1].id == 2 && v@[1].name@ == "Built-in Output"@ && v@[1].device_type == CoreAudioDeviceType::BuiltIn
            && v@[1].channels == 2 && v@[1].sample_rate_hz == DEFAULT_DEVICE_SAMPLE_RATE_HZ && !v@[1].is_input
            && v@[1].is_output && v@[1].uid@ == "builtin_output"@,
        v@[2].id == 3 && v@[2].name@ == "Aggregate Device"@ && v@[2].device_type == CoreAudioDeviceType::Virtual
            && v@[2].channels == 2 && v@[2].sample_rate_hz == DEFAULT_DEVICE_SAMPLE_RATE_HZ && v@[2].is_input
            && v@[2].is_output && v@[2].uid@ == "aggregate"@,
{
    let mut v: Vec<CoreAudioDevice> = Vec::new();
    v.push(
        CoreAudioDevice {
            id: 1,
            name: string_of("Built-in Microphone"),
            device_type: CoreAudioDeviceType::BuiltIn,
            channels: 1,
            sample_rate_hz: DEFAULT_DEVICE_SAMPLE_RATE_HZ,
            is_input: true,
            is_output: false,
            uid: string_of("builtin_mic"),
        },
    );
    v.push(
        CoreAudioDevice {
            id: 2,
            name: string_of("Built-in Output"),
            device_type: CoreAudioDeviceType::BuiltIn,
            channels: 2,
            sample_rate_hz: DEFAULT_DEVICE_SAMPLE_RATE_HZ,
            is_input: false,
            is_output: true,
            uid: string_of("builtin_output"),
        },
    );
    v.push(
        CoreAudioDevice {
            id: 3,
            name: string_of("Aggregate Device"),
            device_type: CoreAudioDeviceType::Virtual,
            channels: 2,
            sample_rate_hz: DEFAULT_DEVICE_SAMPLE_RATE_HZ,
            is_input: true,
            is_output: true,
            uid: string_of("aggregate"),
        },
    );
    v
}

/// What `system_profiler` reports of one audio device, each field as found
/// (`None` where missing or of another type).
#[derive(Debug)]
pub struct ProfilerEntry {
    pub name: Option<String>,
    pub transport: Option<String>,
    pub channel_count: Option<u64>,
    /// Nominal sample rate (Hz).
    pub sample_rate_hz: Option<u32>,
    pub inputs: Option<u64>,
    pub outputs: Option<u64>,
}

pub open spec fn str_or_empty(o: Option<String>) -> Seq<char> {
    match o {
        Some(s) => s@,
        None => Seq::empty(),
    }
}

/// What a device read from a `system_profiler` entry holds, but for its id: a
/// named entry gives a device with the entry's name, transport-derived type,
/// channel count (stereo by default, cut to 32 bits), sample rate (44.1 kHz by
/// default) and direction flags.
pub open spec fn profiler_device_matches(e: ProfilerEntry, d: CoreAudioDevice) -> bool {
    &&& e.name matches Some(n) && d.name@ == n@
    &&& d.device_type == core_device_type_spec(str_or_empty(e.transport), str_or_empty(e.name))
    &&& d.channels == (match e.channel_count {
        Some(c) => c as u32,
        None => 2u32,
    })
    &&& d.sample_rate_hz == (match e.sample_rate_hz {
        Some(r) => r,
        None => DEFAULT_DEVICE_SAMPLE_RATE_HZ,
    })
    &&& d.is_input == (e.inputs matches Some(i) && i > 0)
    &&& d.is_output == (e.outputs matches Some(o) && o > 0)
    &&& d.id < u32::MAX
    &&& d.uid@ == "coreaudio_"@ + decimal(d.id as nat)
}

fn str_or_default(o: &Option<String>) -> (s: &str)
    ensures
        s@ == str_or_empty(*o),
{
    match o {
        Some(s) => s.as_str(),
        None => {
            proof {
                reveal_strlit("");
            }
            ""
        },
    }
}

/// The device that a `system_profiler` entry describes; `None` for an entry
/// without a name.
pub fn device_from_profiler_entry(e: &ProfilerEntry) -> (r: Option<CoreAudioDevice>)
    ensures
        e.name is None ==> r is None,
        e.name is Some ==> (r matches Some(d) && profiler_device_matches(*e, d)),
{
    let name = match &e.name {
        Some(n) => n,
        None => return None,
    };
    let id = generate_device_id(name.as_str());
    let device_type = detect_device_type(str_or_default(&e.transport), name.as_str());
    let channels: u32 = match e.channel_count {
        Some(c) => c as u32,
        None => 2,
    };
    let sample_rate_hz = match e.sample_rate_hz {
        Some(r) => r,
        None => DEFAULT_DEVICE_SAMPLE_RATE_HZ,
    };
    let is_input = match e.inputs {
        Some(i) => i > 0,
        None => false,
    };
    let is_output = match e.outputs {
        Some(o) => o > 0,
        None => false,
    };
    Some(
        CoreAudioDevice {
            id,
            name: name.clone(),
            device_type,
            channels,
            sample_rate_hz,
            is_input,
            is_output,
            uid: tagged_uid("coreaudio_", id),
        },
    )
}

/// The entries of a `system_profiler` report that name a device.
pub open spec fn named_entries(entries: Seq<ProfilerEntry>) -> Seq<ProfilerEntry> {
    entries.filter(|e: ProfilerEntry| e.name is Some)
}

/// The devices of a `system_profiler` audio report, one per named entry, in order.
pub fn devices_from_profiler(entries: &Vec<ProfilerEntry>) -> (r: Vec<CoreAudioDevice>)
    ensures
        r@.len() == named_entries(entries@).len(),
        forall|k: int| 0 <= k < r@.len() ==> profiler_device_matches(named_entries(entries@)[k], #[trigger] r@[k]),
{
    let ghost pred = |e: ProfilerEntry| e.name is Some;
    let mut r: Vec<CoreAudioDevice> = Vec::new();
    let mut i: usize = 0;
    while i < entries.len()
        invariant
            i <= entries@.len(),
            pred == (|e: ProfilerEntry| e.name is Some),
            r@.len() == entries@.take(i as int).filter(pred).len(),
            forall|k: int| 0 <= k < r@.len() ==> profiler_device_matches(entries@.take(i as int).filter(pred)[k], #[trigger] r@[k]),
        decreases entries@.len() - i,
    {
        proof {
            reveal(Seq::filter);
            assert(entries@.take(i + 1).drop_last() =~= entries@.take(i as int));
            assert(entries@.take(i + 1).last() == entries@[i as int]);
        }
        match device_from_profiler_entry(&entries[i]) {
            Some(d) => {
                r.push(d);
                proof {
                    assert(pred(entries@[i as int]));
                    assert(entries@.take(i + 1).filter(pred) == entries@.take(i as int).filter(pred).push(entries@[i as int]));
                }
            },
            None => {
                proof {
                    assert(!pred(entries@[i as int]));
                }
            },
        }
        i = i + 1;
    }
    proof {
        assert(entries@.take(entries@.len() as int) =~= entries@);
    }
    r
}

/// What the `ioreg` listing says of a device: its name and whether it records
/// and plays.
pub type IregDevice = (Seq<char>, bool, bool);

/// The devices of an `ioreg` listing from the given (untrimmed) lines on, with
/// `cur` the device being read: a line that names an `IOAudioDevice` ends the
/// device being read; a line with the `"IOAudioDeviceName"` key starts a new one
/// named by the line's first quoted text; the input and output channel-count keys
/// mark the device being read; the last device ends with the listing.
pub open spec fn ireg_devices(ls: Seq<Seq<char>>, cur: Option<IregDevice>) -> Seq<IregDevice>
    decreases ls.len(),
{
    if ls.len() == 0 {
        match cur {
            Some(d) => seq![d],
            None => Seq::empty(),
        }
    } else {
        let l = trimmed(ls[0]);
        let ends = contains_seq(l, "IOAudioDevice"@);
        let ended: Seq<IregDevice> = if ends && cur is Some {
            seq![cur->0]
        } else {
            Seq::empty()
        };
        let kept = if ends {
            None
        } else {
            cur
        };
        let named = if contains_seq(l, "\"IOAudioDeviceName\""@) && quoted_part(l) is Some {
            Some((quoted_part(l)->0, false, false))
        } else {
            kept
        };
        let marked = match named {
            Some(d) => Some(
                (
                    d.0,
                    d.1 || contains_seq(l, "\"IOAudioEngineInputChannelCount\""@),
                    d.2 || contains_seq(l, "\"IOAudioEngineOutputChannelCount\""@),
                ),
            ),
            None => None,
        };
        ended + ireg_devices(ls.drop_first(), marked)
    }
}

pub open spec fn ireg_view(d: CoreAudioDevice) -> IregDevice {
    (d.name@, d.is_input, d.is_output)
}

pub open spec fn opt_ireg_view(d: Option<CoreAudioDevice>) -> Option<IregDevice> {
    match d {
        Some(d) => Some(ireg_view(d)),
        None => None,
    }
}

/// What every device read from `ioreg` holds besides its name and directions.
pub open spec fn ireg_defaults(d: CoreAudioDevice) -> bool {
    &&& d.device_type == CoreAudioDeviceType::Unknown
    &&& d.channels == 2
    &&& d.sample_rate_hz == DEFAULT_DEVICE_SAMPLE_RATE_HZ
    &&& d.id < u32::MAX
    &&& d.uid@ == "ireg_"@ + decimal(d.id as nat)
}

/// The audio devices of an `ioreg -r -c IOAudioDevice` listing.
pub fn parse_ireg_output(listing: &str) -> (r: Vec<CoreAudioDevice>)
    ensures
        r@.map_values(|d: CoreAudioDevice| ireg_view(d)) == ireg_devices(lines_of(listing@), None),
        forall|k: int| 0 <= k < r@.len() ==> ireg_defaults(#[trigger] r@[k]),
{
    let ls = lines(listing);
    let ghost lv = lines_of(listing@);
    let mut devices: Vec<CoreAudioDevice> = Vec::new();
    let mut current: Option<CoreAudioDevice> = None;
    let mut i: usize = 0;
    proof {
        assert(lv.skip(0) =~= lv);
    }
    while i < ls.len()
        invariant
            i <= ls@.len(),
            lv == lines_of(listing@),
            ls@.map_values(|l: String| l@) == lv,
            ireg_devices(lv, None) == devices@.map_values(|d: CoreAudioDevice| ireg_view(d)) + ireg_devices(
                lv.skip(i as int),
                opt_ireg_view(current),
            ),
            forall|k: int| 0 <= k < devices@.len() ==> ireg_defaults(#[trigger] devices@[k]),
            current matches Some(d) ==> ireg_defaults(d),
        decreases ls@.len() - i,
    {
        let t = trim(ls[i].as_str());
        let line = t.as_str();
        let ghost before = devices@.map_values(|d: CoreAudioDevice| ireg_view(d));
        let ghost cur0 = opt_ireg_view(current);
        proof {
            assert(lv.skip(i as int)[0] == lv[i as int]);
            assert(lv[i as int] == ls@[i as int]@);
            assert(lv.skip(i as int).drop_first() =~= lv.skip(i + 1));
        }
        let ends = str_contains(line, "IOAudioDevice");
        if ends {
            match current {
                Some(d) => {
                    devices.push(d);
                    proof {
                        assert(devices@.map_values(|d: CoreAudioDevice| ireg_view(d)) =~= before + seq![
                            cur0->0,
                        ]);
                    }
                },
                None => {
                    proof {
                        assert(devices@.map_values(|d: CoreAudioDevice| ireg_view(d)) =~= before + Seq::<
                            IregDevice,
                        >::empty());
                    }
                },
            }
            current = None;
        } else {
            proof {
                assert(devices@.map_values(|d: CoreAudioDevice| ireg_view(d)) =~= before + Seq::<IregDevice>::empty());
            }
        }
        if str_contains(line, "\"IOAudioDeviceName\"") {
            match quoted_value(line) {
                Some(name) => {
                    let id = generate_device_id(name.as_str());
                    current =
                    Some(
                        CoreAudioDevice {
                            id,
                            name,
                            device_type: CoreAudioDeviceType::Unknown,
                            channels: 2,
                            sample_rate_hz: DEFAULT_DEVICE_SAMPLE_RATE_HZ,
                            is_input: false,
                            is_output: false,
                            uid: tagged_uid("ireg_", id),
                        },
                    );
                },
                None => {},
            }
        }
        let has_input = str_contains(line, "\"IOAudioEngineInputChannelCount\"");
        let has_output = str_contains(line, "\"IOAudioEngineOutputChannelCount\"");
        match &mut current {
            Some(d) => {
                if has_input {
                    d.is_input = true;
                }
                if has_output {
                    d.is_output = true;
                }
            },
            None => {},
        }
        proof {
            let ended: Seq<IregDevice> = if ends && cur0 is Some {
                seq![cur0->0]
            } else {
                Seq::empty()
            };
            assert(devices@.map_values(|d: CoreAudioDevice| ireg_view(d)) == before + ended);
            assert(ireg_devices(lv.skip(i as int), cur0) == ended + ireg_devices(lv.skip(i + 1), opt_ireg_view(current)));
            assert((before + ended) + ireg_devices(lv.skip(i + 1), opt_ireg_view(current)) =~= before + (ended
                + ireg_devices(lv.skip(i + 1), opt_ireg_view(current))));
        }
        i = i + 1;
    }
    let ghost mid = devices@.map_values(|d: CoreAudioDevice| ireg_view(d));
    let ghost last = opt_ireg_view(current);
    match current {
        Some(d) => {
            devices.push(d);
        },
        None => {},
    }
    proof {
        assert(lv.skip(i as int).len() == 0);
        let tail: Seq<IregDevice> = match last {
            Some(d) => seq![d],
            None => Seq::empty(),
        };
        assert(ireg_devices(lv.skip(i as int), last) == tail);
        assert(devices@.map_values(|d: CoreAudioDevice| ireg_view(d)) =~= mid + tail);
    }
    devices
}

/// The device name on a line of FFmpeg's AVFoundation device listing: what
/// follows the first bracketed part, trimmed.
pub open spec fn avfoundation_name(l: Seq<char>) -> Option<Seq<char>> {
    let s = index_of(l, '[');
    if s < 0 {
        None
    } else {
        let e = index_of(l.subrange(s, l.len() as int), ']');
        if e < 0 {
            None
        } else {
            Some(trimmed(l.subrange(s + e + 1, l.len() as int)))
        }
    }
}

/// Reads the device name of a line of FFmpeg's AVFoundation device listing, as
/// in `[AVFoundation input device @ 0x7f8b4c506a00] [0] Built-in Microphone`.
pub fn extract_avfoundation_device_name(line: &str) -> (r: Option<String>)
    ensures
        match r {
            Some(n) => avfoundation_name(line@) == Some(n@),
            None => avfoundation_name(line@) is None,
        },
{
    let v = chars_of(line);
    let n = v.len();
    proof {
        assert(v@.subrange(0, v@.len() as int) =~= v@);
    }
    match char_index_from(&v, 0, '[') {
        None => None,
        Some(start) => match char_index_from(&v, start, ']') {
            None => None,
            Some(end) => {
                let rest = string_from_range(&v, start + end + 1, n);
                Some(trim(rest.as_str()))
            },
        },
    }
}

/// The transport of a device listed by FFmpeg, guessed from its name.
pub open spec fn listed_device_type(name: Seq<char>) -> CoreAudioDeviceType {
    let l = lowercase(name);
    if contains_seq(l, "built-in"@) {
        CoreAudioDeviceType::BuiltIn
    } else if contains_seq(l, "usb"@) {
        CoreAudioDeviceType::USB
    } else if contains_seq(l, "bluetooth"@) {
        CoreAudioDeviceType::Bluetooth
    } else {
        CoreAudioDeviceType::Unknown
    }
}

fn listed_type(name: &str) -> (t: CoreAudioDeviceType)
    ensures
        t == listed_device_type(name@),
{
    let lower = to_lowercase(name);
    let l = lower.as_str();
    if str_contains(l, "built-in") {
        CoreAudioDeviceType::BuiltIn
    } else if str_contains(l, "usb") {
        CoreAudioDeviceType::USB
    } else if str_contains(l, "bluetooth") {
        CoreAudioDeviceType::Bluetooth
    } else {
        CoreAudioDeviceType::Unknown
    }
}

/// The names of the input devices of FFmpeg's AVFoundation listing, in order.
pub open spec fn listed_devices(ls: Seq<Seq<char>>) -> Seq<Seq<char>>
    decreases ls.len(),
{
    if ls.len() == 0 {
        Seq::empty()
    } else if contains_seq(ls[0], "[AVFoundation input device]"@) && avfoundation_name(ls[0]) is Some {
        seq![avfoundation_name(ls[0])->0] + listed_devices(ls.drop_first())
    } else {
        listed_devices(ls.drop_first())
    }
}

/// What every device listed by FFmpeg holds besides its name: a stereo input
/// whose transport is guessed from its name.
pub open spec fn listed_defaults(d: CoreAudioDevice) -> bool {
    &&& d.device_type == listed_device_type(d.name@)
    &&& d.channels == 2
    &&& d.sample_rate_hz == DEFAULT_DEVICE_SAMPLE_RATE_HZ
    &&& d.is_input
    &&& !d.is_output
    &&& d.id < u32::MAX
    &&& d.uid@ == "ffmpeg_"@ + decimal(d.id as nat)
}

/// The input devices of FFmpeg's AVFoundation device listing (its standard error).
pub fn parse_ffmpeg_devices(listing: &str) -> (r: Vec<CoreAudioDevice>)
    ensures
        r@.map_values(|d: CoreAudioDevice| d.name@) == listed_devices(lines_of(listing@)),
        forall|k: int| 0 <= k < r@.len() ==> listed_defaults(#[trigger] r@[k]),
{
    let ls = lines(listing);
    let ghost lv = lines_of(listing@);
    let mut devices: Vec<CoreAudioDevice> = Vec::new();
    let mut i: usize = 0;
    proof {
        assert(lv.skip(0) =~= lv);
    }
    while i < ls.len()
        invariant
            i <= ls@.len(),
            lv == lines_of(listing@),
            ls@.map_values(|l: String| l@) == lv,
            listed_devices(lv) == devices@.map_values(|d: CoreAudioDevice| d.name@) + listed_devices(lv.skip(i as int)),
            forall|k: int| 0 <= k < devices@.len() ==> listed_defaults(#[trigger] devices@[k]),
        decreases ls@.len() - i,
    {
        let line = ls[i].as_str();
        let ghost before = devices@.map_values(|d: CoreAudioDevice| d.name@);
        proof {
            assert(lv.skip(i as int)[0] == lv[i as int]);
            assert(lv[i as int] == ls@[i as int]@);
            assert(lv.skip(i as int).drop_first() =~= lv.skip(i + 1));
        }
        if str_contains(line, "[AVFoundation input device]") {
            match extract_avfoundation_device_name(line) {
                Some(name) => {
                    let id = generate_device_id(name.as_str());
                    let device_type = listed_type(name.as_str());
                    let ghost nv = name@;
                    devices.push(
                        CoreAudioDevice {
                            id,
                            name,
                            device_type,
                            channels: 2,
                            sample_rate_hz: DEFAULT_DEVICE_SAMPLE_RATE_HZ,
                            is_input: true,
                            is_output: false,
                            uid: tagged_uid("ffmpeg_", id),
                        },
                    );
                    proof {
                        let after = devices@.map_values(|d: CoreAudioDevice| d.name@);
                        assert(after =~= before.push(nv));
                        assert(after + listed_devices(lv.skip(i + 1)) =~= before + (seq![nv] + listed_devices(
                            lv.skip(i + 1),
                        )));
                    }
                },
                None => {},
            }
        }
        i = i + 1;
    }
    proof {
        let done = devices@.map_values(|d: CoreAudioDevice| d.name@);
        assert(lv.skip(i as int).len() == 0);
        assert(done + listed_devices(lv.skip(i as int)) =~= done);
    }
    devices
}

/// The devices found by the enumerations that succeeded (`system_profiler`,
/// `ioreg`, FFmpeg, in that order), or the fallback devices where none found any.
pub fn merge_device_sources(
    profiler: Option<Vec<CoreAudioDevice>>,
    ioreg: Option<Vec<CoreAudioDevice>>,
    ffmpeg: Option<Vec<CoreAudioDevice>>,
) -> (r: Vec<CoreAudioDevice>)
    ensures
        ({
            let found = opt_devices(profiler) + opt_devices(ioreg) + opt_devices(ffmpeg);
            if found.len() > 0 {
                r@ == found
            } else {
                r@.len() == 3 && r@[0].uid@ == "builtin_mic"@ && r@[1].uid@ == "builtin_output"@ && r@[2].uid@
                    == "aggregate"@
            }
        }),
{
    let mut devices: Vec<CoreAudioDevice> = Vec::new();
    match profiler {
        Some(mut v) => devices.append(&mut v),
        None => {},
    }
    match ioreg {
        Some(mut v) => devices.append(&mut v),
        None => {},
    }
    match ffmpeg {
        Some(mut v) => devices.append(&mut v),
        None => {},
    }
    proof {
        assert(devices@ =~= opt_devices(profiler) + opt_devices(ioreg) + opt_devices(ffmpeg));
    }
    if devices.len() == 0 {
        get_fallback_devices()
    } else {
        devices
    }
}

pub open spec fn opt_devices(o: Option<Vec<CoreAudioDevice>>) -> Seq<CoreAudioDevice> {
    match o {
        Some(v) => v@,
        None => Seq::empty(),
    }
}

/// Which devices a Core Audio query selects.
pub enum DeviceSelection {
    /// Devices that record.
    Input,
    /// Devices that play.
    Output,
    /// Devices of one transport.
    Transport(CoreAudioDeviceType),
}

pub open spec fn selects(sel: DeviceSelection, d: CoreAudioDevice) -> bool {
    match sel {
        DeviceSelection::Input => d.is_input,
        DeviceSelection::Output => d.is_output,
        DeviceSelection::Transport(t) => d.device_type == t,
    }
}

/// The Core Audio devices last enumerated.
pub struct CoreAudioManager {
    devices: Vec<CoreAudioDevice>,
}

impl CoreAudioManager {
    pub closed spec fn spec_devices(&self) -> Seq<CoreAudioDevice> {
        self.devices@
    }

    /// A manager that holds no device yet.
    pub fn new() -> (m: Self)
        ensures
            m.spec_devices() == Seq::<CoreAudioDevice>::empty(),
    {
        CoreAudioManager { devices: Vec::new() }
    }

    /// Replaces the list with a fresh enumeration.
    pub fn set_devices(&mut self, devices: Vec<CoreAudioDevice>)
        ensures
            final(self).spec_devices() == devices@,
    {
        self.devices = devices;
    }

    /// All devices.
    pub fn get_devices(&self) -> (d: &[CoreAudioDevice])
        ensures
            d@ == self.spec_devices(),
    {
        self.devices.as_slice()
    }

    /// The first device with the given id.
    pub fn find_device_by_id(&self, id: u32) -> (r: Option<&CoreAudioDevice>)
        ensures
            match r {
                Some(d) => exists|i: int|
                    0 <= i < self.spec_devices().len() && self.spec_devices()[i] == *d && d.id == id && forall|
                        k: int,
                    | 0 <= k < i ==> (#[trigger] self.spec_devices()[k]).id != id,
                None => forall|k: int| 0 <= k < self.spec_devices().len() ==> (#[trigger] self.spec_devices()[k]).id != id,
            },
    {
        let mut i: usize = 0;
        while i < self.devices.len()
            invariant
                i <= self.devices@.len(),
                forall|k: int| 0 <= k < i ==> (#[trigger] self.devices@[k]).id != id,
            decreases self.devices@.len() - i,
        {
            if self.devices[i].id == id {
                return Some(&self.devices[i]);
            }
            i = i + 1;
        }
        None
    }

    /// The devices that a selection picks, in order.
    pub fn select(&self, sel: DeviceSelection) -> (r: Vec<&CoreAudioDevice>)
        ensures
            r@.map_values(|d: &CoreAudioDevice| *d) == self.spec_devices().filter(|d: CoreAudioDevice| selects(sel, d)),
    {
        let ghost all = self.devices@;
        let ghost pred = |d: CoreAudioDevice| selects(sel, d);
        let mut r: Vec<&CoreAudioDevice> = Vec::new();
        let mut i: usize = 0;
        while i < self.devices.len()
            invariant
                i <= all.len(),
                all == self.devices@,
                pred == (|d: CoreAudioDevice| selects(sel, d)),
                r@.map_values(|d: &CoreAudioDevice| *d) == all.take(i as int).filter(pred),
            decreases all.len() - i,
        {
            let d = &self.devices[i];
            proof {
                assert(all.take(i + 1).drop_last() =~= all.take(i as int));
                assert(all.take(i + 1).last() == *d);
                reveal(Seq::filter);
            }
            let picked = match sel {
                DeviceSelection::Input => d.is_input,
                DeviceSelection::Output => d.is_output,
                DeviceSelection::Transport(t) => d.device_type == t,
            };
            if picked {
                let ghost before = r@;
                r.push(d);
                proof {
                    assert(r@.map_values(|d: &CoreAudioDevice| *d) =~= before.map_values(|d: &CoreAudioDevice| *d).push(
                        *d,
                    ));
                }
            }
            i = i + 1;
        }
        proof {
            assert(all.take(all.len() as int) =~= all);
        }
        r
    }

    /// The devices of one transport.
    pub fn get_devices_by_type(&self, device_type: CoreAudioDeviceType) -> (r: Vec<&CoreAudioDevice>)
        ensures
            r@.map_values(|d: &CoreAudioDevice| *d) == self.spec_devices().filter(
                |d: CoreAudioDevice| selects(DeviceSelection::Transport(device_type), d),
            ),
    {
        self.select(DeviceSelection::Transport(device_type))
    }

    /// The devices that record.
    pub fn get_input_devices(&self) -> (r: Vec<&CoreAudioDevice>)
        ensures
            r@.map_values(|d: &CoreAudioDevice| *d) == self.spec_devices().filter(
                |d: CoreAudioDevice| selects(DeviceSelection::Input, d),
            ),
    {
        self.select(DeviceSelection::Input)
    }

    /// The devices that play.
    pub fn get_output_devices(&self) -> (r: Vec<&CoreAudioDevice>)
        ensures
            r@.map_values(|d: &CoreAudioDevice| *d) == self.spec_devices().filter(
                |d: CoreAudioDevice| selects(DeviceSelection::Output, d),
            ),
    {
        self.select(DeviceSelection::Output)
    }
}

} // verus!
