//! Device records, their identity and their display order.
use vstd::prelude::*;
use vstd::std_specs::cmp::PartialEqSpec;

verus! {

/// Connection status of a device, listed in display priority order.
#[derive(Debug, Clone, Copy, PartialEq, Eq, Structural, PartialOrd, Ord)]
pub enum BTDeviceStatus {
    Paired,
    Pairing,
    Connected,
    Connecting,
    Disconnected,
    Disconnecting,
}

/// Position of a status in the display priority order (`Paired` first).
pub open spec fn status_rank(s: BTDeviceStatus) -> nat {
    match s {
        BTDeviceStatus::Paired => 0,
        BTDeviceStatus::Pairing => 1,
        BTDeviceStatus::Connected => 2,
        BTDeviceStatus::Connecting => 3,
        BTDeviceStatus::Disconnected => 4,
        BTDeviceStatus::Disconnecting => 5,
    }
}

impl BTDeviceStatus {
    /// The position of this status in the display priority order.
    pub fn rank(&self) -> (r: u8)
        ensures
            r as nat == status_rank(*self),
    {
        match self {
            BTDeviceStatus::Paired => 0,
            BTDeviceStatus::Pairing => 1,
            BTDeviceStatus::Connected => 2,
            BTDeviceStatus::Connecting => 3,
            BTDeviceStatus::Disconnected => 4,
            BTDeviceStatus::Disconnecting => 5,
        }
    }
}

/// A six-byte hardware address, most significant byte first.
#[derive(Debug, Clone, Copy)]
pub struct Address {
    pub bytes: [u8; 6],
}

impl PartialEq for Address {
    fn eq(&self, other: &Address) -> (r: bool) {
        let mut i: usize = 0;
        while i < 6
            invariant
                i <= 6,
                forall|j: int| 0 <= j < i ==> self.bytes@[j] == other.bytes@[j],
            decreases 6 - i,
        {
            if self.bytes[i] != other.bytes[i] {
                return false;
            }
            i = i + 1;
        }
        assert(self.bytes@ =~= other.bytes@);
        true
    }
}

impl vstd::std_specs::cmp::PartialEqSpecImpl for Address {
    open spec fn obeys_eq_spec() -> bool {
        true
    }

    open spec fn eq_spec(&self, other: &Address) -> bool {
        self.bytes@ == other.bytes@
    }
}

impl Eq for Address {}

/// Uppercase hexadecimal digit of a value below sixteen.
pub open spec fn hex_digit(n: u8) -> char {
    if n < 10 {
        (('0' as u8) + n) as char
    } else {
        (('A' as u8) + (n - 10)) as char
    }
}

/// Two uppercase hexadecimal digits of a byte.
pub open spec fn hex_byte(b: u8) -> Seq<char> {
    seq![hex_digit(b / 16), hex_digit(b % 16)]
}

/// The text of an address: six two-digit hexadecimal bytes joined by colons.
pub open spec fn address_text(a: Address) -> Seq<char> {
    hex_byte(a.bytes@[0]) + seq![':'] + hex_byte(a.bytes@[1]) + seq![':'] + hex_byte(a.bytes@[2])
        + seq![':'] + hex_byte(a.bytes@[3]) + seq![':'] + hex_byte(a.bytes@[4]) + seq![':']
        + hex_byte(a.bytes@[5])
}

/// Relies on bluer's `Display` for `Address`: the six bytes in order, each as
/// two uppercase hexadecimal digits, joined by colons.
#[verifier::external_body]
fn format_address(a: &Address) -> (r: String)
    ensures
        r@ == address_text(*a),
{
    bluer::Address::new(a.bytes).to_string()
}

impl Address {
    /// The address as text, `AA:BB:CC:DD:EE:FF`.
    pub fn to_text(&self) -> (r: String)
        ensures
            r@ == address_text(*self),
    {
        format_address(self)
    }
}

/// What `str::to_lowercase` returns for a text.
pub uninterp spec fn lower_of(s: Seq<char>) -> Seq<char>;

/// Relies on str::to_lowercase: the result depends on the characters alone.
#[verifier::external_body]
fn lowercase(s: &str) -> (r: String)
    ensures
        r@ == lower_of(s@),
        s@.len() == 0 ==> r@.len() == 0,
{
    s.to_lowercase()
}

/// One discoverable or paired peripheral, as seen at one rebuild.
#[derive(Debug)]
pub struct BTDevice {
    pub name: String,
    pub address: Address,
    pub status: BTDeviceStatus,
    pub is_paired: bool,
    pub is_trusted: bool,
    pub battery_percentage: Option<u8>,
}

impl Clone for BTDevice {
    fn clone(&self) -> (r: Self)
        ensures
            r == *self,
    {
        BTDevice {
            name: self.name.clone(),
            address: self.address,
            status: self.status,
            is_paired: self.is_paired,
            is_trusted: self.is_trusted,
            battery_percentage: self.battery_percentage,
        }
    }
}

/// Identity of a device: its name and its address; status and flags do not count.
pub open spec fn same_device(a: BTDevice, b: BTDevice) -> bool {
    a.name@ == b.name@ && a.address.bytes@ == b.address.bytes@
}

impl PartialEq for BTDevice {
    fn eq(&self, other: &BTDevice) -> (r: bool) {
        self.name == other.name && self.address == other.address
    }
}

impl vstd::std_specs::cmp::PartialEqSpecImpl for BTDevice {
    open spec fn obeys_eq_spec() -> bool {
        true
    }

    open spec fn eq_spec(&self, other: &BTDevice) -> bool {
        same_device(*self, *other)
    }
}

impl Eq for BTDevice {}

/// Device equality depends on name and address alone: two records that differ
/// only in status, flags or battery level are equal.
pub proof fn lemma_device_identity(a: BTDevice, b: BTDevice)
    requires
        a.name@ == b.name@,
        a.address.bytes@ == b.address.bytes@,
    ensures
        a.eq_spec(&b),
        b.eq_spec(&a),
{
}

/// A device counts as on when it is connected.
pub open spec fn device_is_on(d: BTDevice) -> bool {
    d.status == BTDeviceStatus::Connected
}

impl BTDevice {
    /// Whether the device is connected.
    pub fn is_on(&self) -> (r: bool)
        ensures
            r == device_is_on(*self),
    {
        match self.status {
            BTDeviceStatus::Connected => true,
            _ => false,
        }
    }
}

/// Lexicographic order of two texts by code point, from position `i` on.
pub open spec fn text_le_from(a: Seq<char>, b: Seq<char>, i: nat) -> bool
    decreases a.len() - i,
{
    if i >= a.len() {
        true
    } else if i >= b.len() {
        false
    } else if (a[i as int] as u32) < (b[i as int] as u32) {
        true
    } else if (a[i as int] as u32) > (b[i as int] as u32) {
        false
    } else {
        text_le_from(a, b, i + 1)
    }
}

/// Lexicographic order of two texts by code point (the order of `str`'s `Ord`).
pub open spec fn text_le(a: Seq<char>, b: Seq<char>) -> bool {
    text_le_from(a, b, 0)
}

/// Display order of devices: by status rank, then by lowercased name.
pub open spec fn device_le(a: BTDevice, b: BTDevice) -> bool {
    status_rank(a.status) < status_rank(b.status) || (status_rank(a.status) == status_rank(
        b.status,
    ) && text_le(lower_of(a.name@), lower_of(b.name@)))
}

proof fn lemma_text_le_from_total(a: Seq<char>, b: Seq<char>, i: nat)
    ensures
        text_le_from(a, b, i) || text_le_from(b, a, i),
    decreases a.len() - i,
{
    if i < a.len() && i < b.len() && (a[i as int] as u32) == (b[i as int] as u32) {
        lemma_text_le_from_total(a, b, i + 1);
    }
}

proof fn lemma_text_le_from_trans(a: Seq<char>, b: Seq<char>, c: Seq<char>, i: nat)
    requires
        text_le_from(a, b, i),
        text_le_from(b, c, i),
    ensures
        text_le_from(a, c, i),
    decreases a.len() - i,
{
    if i < a.len() && i < b.len() && i < c.len() && (a[i as int] as u32) == (b[i as int] as u32)
        && (b[i as int] as u32) == (c[i as int] as u32) {
        lemma_text_le_from_trans(a, b, c, i + 1);
    }
}

/// The display order is total.
pub proof fn lemma_device_le_total(a: BTDevice, b: BTDevice)
    ensures
        device_le(a, b) || device_le(b, a),
{
    lemma_text_le_from_total(lower_of(a.name@), lower_of(b.name@), 0);
}

/// The display order is transitive.
pub proof fn lemma_device_le_trans(a: BTDevice, b: BTDevice, c: BTDevice)
    requires
        device_le(a, b),
        device_le(b, c),
    ensures
        device_le(a, c),
{
    if status_rank(a.status) == status_rank(b.status) && status_rank(b.status) == status_rank(
        c.status,
    ) {
        lemma_text_le_from_trans(lower_of(a.name@), lower_of(b.name@), lower_of(c.name@), 0);
    }
}

/// Whether `a` comes before `b` in code-point order, or equals it.
pub fn text_at_most(a: &str, b: &str) -> (r: bool)
    ensures
        r == text_le(a@, b@),
{
    let la = a.unicode_len();
    let lb = b.unicode_len();
    let mut i: usize = 0;
    while i < la
        invariant
            la == a@.len(),
            lb == b@.len(),
            i <= la,
            text_le_from(a@, b@, 0) == text_le_from(a@, b@, i as nat),
        decreases la - i,
    {
        if i >= lb {
            return false;
        }
        let ca = a.get_char(i) as u32;
        let cb = b.get_char(i) as u32;
        if ca < cb {
            return true;
        }
        if ca > cb {
            return false;
        }
        i = i + 1;
    }
    true
}

/// Whether `a` comes before `b` in display order, or ties with it.
pub fn device_le_exec(a: &BTDevice, b: &BTDevice) -> (r: bool)
    ensures
        r == device_le(*a, *b),
{
    let ra = a.status.rank();
    let rb = b.status.rank();
    if ra < rb {
        return true;
    }
    if ra > rb {
        return false;
    }
    let na = lowercase(a.name.as_str());
    let nb = lowercase(b.name.as_str());
    text_at_most(na.as_str(), nb.as_str())
}

/// Display order as an `Ordering`: `Equal` when two devices tie.
pub open spec fn device_ordering(a: BTDevice, b: BTDevice) -> core::cmp::Ordering {
    if device_le(a, b) && device_le(b, a) {
        core::cmp::Ordering::Equal
    } else if device_le(a, b) {
        core::cmp::Ordering::Less
    } else {
        core::cmp::Ordering::Greater
    }
}

impl PartialOrd for BTDevice {
    fn partial_cmp(&self, other: &BTDevice) -> (r: Option<core::cmp::Ordering>) {
        let le = device_le_exec(self, other);
        let ge = device_le_exec(other, self);
        if le && ge {
            Some(core::cmp::Ordering::Equal)
        } else if le {
            Some(core::cmp::Ordering::Less)
        } else {
            Some(core::cmp::Ordering::Greater)
        }
    }
}

impl vstd::std_specs::cmp::PartialOrdSpecImpl for BTDevice {
    open spec fn obeys_partial_cmp_spec() -> bool {
        true
    }

    open spec fn partial_cmp_spec(&self, other: &BTDevice) -> Option<core::cmp::Ordering> {
        Some(device_ordering(*self, *other))
    }
}

} // verus!
