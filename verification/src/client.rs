//! Client identities and device connection records.

use vstd::prelude::*;
use vstd::string::StringExecFns;

verus! {

/// The kind of a client, stored as its raw flag bits.
#[derive(Debug, Clone, Copy, PartialEq, Eq, Structural)]
pub struct ClientType(pub u32);

impl ClientType {
    /// A person.
    pub fn client_people() -> (t: Self)
        ensures
            t.0 == 0x0001,
    {
        ClientType(0x0001)
    }

    /// A group of clients.
    pub fn client_group() -> (t: Self)
        ensures
            t.0 == 0x0002,
    {
        ClientType(0x0002)
    }

    /// A device.
    pub fn client_device() -> (t: Self)
        ensures
            t.0 == 0x0003,
    {
        ClientType(0x0003)
    }

    /// A robot.
    pub fn client_robot() -> (t: Self)
        ensures
            t.0 == 0x0004,
    {
        ClientType(0x0004)
    }

    /// A service.
    pub fn client_service() -> (t: Self)
        ensures
            t.0 == 0x0010,
    {
        ClientType(0x0010)
    }

    /// The raw flag bits.
    pub fn bits(&self) -> (b: u32)
        ensures
            b == self.0,
    {
        self.0
    }
}

/// The planet part of a client identity, stored as its raw flag bits.
#[derive(Debug, Clone, Copy, PartialEq, Eq, Structural)]
pub struct ClientPlanet(pub u32);

impl ClientPlanet {
    /// Earth.
    pub fn planet_earth() -> (p: Self)
        ensures
            p.0 == 0x00000000,
    {
        ClientPlanet(0x00000000)
    }

    /// Mars.
    pub fn planet_mar() -> (p: Self)
        ensures
            p.0 == 0x00000010,
    {
        ClientPlanet(0x00000010)
    }

    /// The raw flag bits.
    pub fn bits(&self) -> (b: u32)
        ensures
            b == self.0,
    {
        self.0
    }
}

/// The connection state of a device, stored as its raw flag bits.
#[derive(Debug, Clone, Copy, PartialEq, Eq, Structural)]
pub struct DeviceConnState(pub u32);

impl DeviceConnState {
    /// Connected and in the foreground.
    pub fn state_online() -> (s: Self)
        ensures
            s.0 == 0x00010001,
    {
        DeviceConnState(0x00010001)
    }

    /// Connected and in the background.
    pub fn state_onback() -> (s: Self)
        ensures
            s.0 == 0x00010002,
    {
        DeviceConnState(0x00010002)
    }

    /// Not connected.
    pub fn state_offline() -> (s: Self)
        ensures
            s.0 == 0x00010004,
    {
        DeviceConnState(0x00010004)
    }

    /// The raw flag bits.
    pub fn bits(&self) -> (b: u32)
        ensures
            b == self.0,
    {
        self.0
    }
}

/// The 64-bit global identifier of a client: the planet bits in the high
/// half and the object number in the low half.
pub open spec fn spec_guid(planet: u32, object: u32) -> nat {
    planet as nat * 0x1_0000_0000 + object as nat
}

/// The lowercase hexadecimal digit for `d`, which is below 16.
pub open spec fn hex_char(d: nat) -> char {
    if d < 10 {
        (48 + d) as char
    } else {
        (87 + d) as char
    }
}

/// The lowercase hexadecimal notation of `n`, without leading zeros
/// (`"0"` for zero).
pub open spec fn hex_digits(n: nat) -> Seq<char>
    decreases n,
{
    if n < 16 {
        seq![hex_char(n)]
    } else {
        hex_digits(n / 16).push(hex_char(n % 16))
    }
}

/// The value of a lowercase hexadecimal digit, or -1 for any other
/// character.
pub open spec fn hex_digit_value(c: char) -> int {
    let v = c as int;
    if 48 <= v <= 57 {
        v - 48
    } else if 97 <= v <= 102 {
        v - 87
    } else {
        -1
    }
}

/// The number that the hexadecimal digits `s` write, most significant
/// first.
pub open spec fn hex_value(s: Seq<char>) -> int
    decreases s.len(),
{
    if s.len() == 0 {
        0
    } else {
        hex_value(s.drop_last()) * 16 + hex_digit_value(s.last())
    }
}

/// The digits of lowercase hexadecimal, in order of value.
pub open spec fn hex_alphabet() -> Seq<char> {
    seq!['0', '1', '2', '3', '4', '5', '6', '7', '8', '9', 'a', 'b', 'c', 'd', 'e', 'f']
}

/// Each value below 16 is written as its own digit of the lowercase
/// hexadecimal alphabet.
pub proof fn lemma_hex_char_alphabet(d: nat)
    requires
        d < 16,
    ensures
        hex_char(d) == hex_alphabet()[d as int],
        hex_digit_value(hex_char(d)) == d,
{
    assert(hex_char(d) == hex_alphabet()[d as int]);
}

/// The hexadecimal notation of `n` is made of lowercase hexadecimal digits,
/// has no leading zero, and reads back as `n`.
pub proof fn lemma_hex_digits_read_back(n: nat)
    ensures
        hex_value(hex_digits(n)) == n,
        hex_digits(n).len() >= 1,
        forall|i: int| 0 <= i < hex_digits(n).len() ==> hex_alphabet().contains(#[trigger] hex_digits(n)[i]),
        n > 0 ==> hex_digits(n)[0] != '0',
    decreases n,
{
    if n < 16 {
        lemma_hex_char_alphabet(n);
        let s = hex_digits(n);
        assert(s.drop_last() =~= Seq::<char>::empty());
        assert(hex_value(Seq::<char>::empty()) == 0);
        assert(hex_value(s) == hex_value(s.drop_last()) * 16 + hex_digit_value(s.last()));
        assert(hex_alphabet()[n as int] == s[0]);
        if n > 0 {
            assert(hex_alphabet()[0] == '0');
        }
    } else {
        lemma_hex_digits_read_back(n / 16);
        lemma_hex_char_alphabet(n % 16);
        let s = hex_digits(n);
        let p = hex_digits(n / 16);
        assert(s.drop_last() =~= p);
        assert(s.last() == hex_char(n % 16));
        assert(hex_value(s) == hex_value(p) * 16 + hex_digit_value(s.last()));
        assert(n == (n / 16) * 16 + n % 16);
        assert forall|i: int| 0 <= i < s.len() implies hex_alphabet().contains(#[trigger] s[i]) by {
            if i < p.len() {
                assert(s[i] == p[i]);
                assert(hex_alphabet().contains(p[i]));
            } else {
                assert(s[i] == hex_alphabet()[(n % 16) as int]);
            }
        }
        assert(s[0] == p[0]);
    }
}

/// A client identity: the planet it lives on and its number there.
#[derive(Debug, Clone, Copy, PartialEq, Eq, Structural)]
pub struct ClientID {
    pub planet: ClientPlanet,
    pub object: u32,
}

impl ClientID {
    pub fn new(planet: ClientPlanet, object: u32) -> (id: Self)
        ensures
            id.planet == planet,
            id.object == object,
    {
        Self { planet, object }
    }

    /// The global identifier: planet bits shifted into the high 32 bits,
    /// the object number in the low 32 bits.
    pub fn get_guid(&self) -> (guid: u64)
        ensures
            guid == spec_guid(self.planet.0, self.object),
            guid / 0x1_0000_0000 == self.planet.0,
            guid % 0x1_0000_0000 == self.object,
    {
        let p = self.planet.bits() as u64;
        let o = self.object as u64;
        let guid = (p << 32u64) | o;
        assert(guid == p * 0x1_0000_0000 + o) by (bit_vector)
            requires
                guid == (p << 32u64) | o,
                p < 0x1_0000_0000,
                o < 0x1_0000_0000,
        ;
        guid
    }

    /// The global identifier in lowercase hexadecimal, without leading zeros.
    pub fn get_hex(&self) -> (s: String)
        ensures
            s@ == hex_digits(spec_guid(self.planet.0, self.object)),
            hex_value(s@) == spec_guid(self.planet.0, self.object),
            forall|i: int| 0 <= i < s@.len() ==> hex_alphabet().contains(#[trigger] s@[i]),
            s@.len() > 1 ==> s@[0] != '0',
    {
        proof {
            lemma_hex_digits_read_back(spec_guid(self.planet.0, self.object));
        }
        let mut s = String::new();
        push_hex(&mut s, self.get_guid());
        assert(s@ =~= hex_digits(spec_guid(self.planet.0, self.object)));
        s
    }

    /// A 128-bit key for one device of this client: the global identifier
    /// in the high 64 bits, the device number in the low 64 bits.
    pub fn get_key(&self, deviceid: u32) -> (key: u128)
        ensures
            key == spec_guid(self.planet.0, self.object) * 0x1_0000_0000_0000_0000 + deviceid,
            key / 0x1_0000_0000_0000_0000 / 0x1_0000_0000 == self.planet.0,
            key / 0x1_0000_0000_0000_0000 % 0x1_0000_0000 == self.object,
            key % 0x1_0000_0000_0000_0000 == deviceid,
    {
        let num_u64 = self.get_guid();
        let g = num_u64 as u128;
        let d = deviceid as u128;
        let key = (g << 64u128) | d;
        assert(key == g * 0x1_0000_0000_0000_0000 + d) by (bit_vector)
            requires
                key == (g << 64u128) | d,
                g < 0x1_0000_0000_0000_0000,
                d < 0x1_0000_0000,
        ;
        key
    }

    /// The planet of this client.
    pub fn planet(&self) -> (p: ClientPlanet)
        ensures
            p == self.planet,
    {
        self.planet
    }

    /// The object number of this client.
    pub fn object(&self) -> (o: u32)
        ensures
            o == self.object,
    {
        self.object
    }

    /// Replaces the planet.
    pub fn set_planet(&mut self, val: ClientPlanet) -> (r: &mut Self)
        ensures
            *r == (ClientID { planet: val, ..*old(self) }),
            *final(self) == *final(r),
    {
        self.planet = val;
        self
    }

    /// Replaces the object number.
    pub fn set_object(&mut self, val: u32) -> (r: &mut Self)
        ensures
            *r == (ClientID { object: val, ..*old(self) }),
            *final(self) == *final(r),
    {
        self.object = val;
        self
    }
}

/// Converting a client identity to `u64` gives its global identifier.
impl From<ClientID> for u64 {
    fn from(id: ClientID) -> (guid: u64) {
        id.get_guid()
    }
}

impl vstd::std_specs::convert::FromSpecImpl<ClientID> for u64 {
    open spec fn obeys_from_spec() -> bool {
        true
    }

    open spec fn from_spec(id: ClientID) -> u64 {
        spec_guid(id.planet.0, id.object) as u64
    }
}

/// The lowercase hexadecimal digit for `d` as a one-character string.
fn hex_digit_str(d: u64) -> (s: &'static str)
    requires
        d < 16,
    ensures
        s@ == seq![hex_char(d as nat)],
{
    proof {
        reveal_strlit("0");
        reveal_strlit("1");
        reveal_strlit("2");
        reveal_strlit("3");
        reveal_strlit("4");
        reveal_strlit("5");
        reveal_strlit("6");
        reveal_strlit("7");
        reveal_strlit("8");
        reveal_strlit("9");
        reveal_strlit("a");
        reveal_strlit("b");
        reveal_strlit("c");
        reveal_strlit("d");
        reveal_strlit("e");
        reveal_strlit("f");
    }
    match d {
        0 => "0",
        1 => "1",
        2 => "2",
        3 => "3",
        4 => "4",
        5 => "5",
        6 => "6",
        7 => "7",
        8 => "8",
        9 => "9",
        10 => "a",
        11 => "b",
        12 => "c",
        13 => "d",
        14 => "e",
        _ => "f",
    }
}

/// Appends the lowercase hexadecimal notation of `n` to `s`.
fn push_hex(s: &mut String, n: u64)
    ensures
        final(s)@ == old(s)@ + hex_digits(n as nat),
    decreases n,
{
    if n >= 16 {
        push_hex(s, n / 16);
    }
    s.append(hex_digit_str(n % 16));
}

/// A device of a client and its connection state.
#[derive(Debug, Clone, Copy, PartialEq, Eq, Structural)]
pub struct DeviceConnInfo {
    pub device_id: u32,
    pub device_state: DeviceConnState,
}

impl DeviceConnInfo {
    pub fn new(device_id: u32, device_state: DeviceConnState) -> (info: Self)
        ensures
            info.device_id == device_id,
            info.device_state == device_state,
    {
        Self { device_id, device_state }
    }

    pub fn device_id(&self) -> (id: u32)
        ensures
            id == self.device_id,
    {
        self.device_id
    }

    pub fn device_state(&self) -> (state: DeviceConnState)
        ensures
            state == self.device_state,
    {
        self.device_state
    }

    pub fn set_device_id(&mut self, val: u32) -> (r: &mut Self)
        ensures
            *r == (DeviceConnInfo { device_id: val, ..*old(self) }),
            *final(self) == *final(r),
    {
        self.device_id = val;
        self
    }

    pub fn set_device_state(&mut self, val: DeviceConnState) -> (r: &mut Self)
        ensures
            *r == (DeviceConnInfo { device_state: val, ..*old(self) }),
            *final(self) == *final(r),
    {
        self.device_state = val;
        self
    }
}

} // verus!
