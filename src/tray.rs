//! The indicator sink: what the tray shows for a snapshot, and the icon pixels.
use vstd::prelude::*;

use crate::device::{device_is_on, BTDevice};
use crate::events::Action;
use crate::state::BTState;

verus! {

/// Decimal digit of a value below ten.
pub open spec fn digit_char(n: u8) -> char {
    (('0' as u8) + n) as char
}

/// The decimal text of a byte, without leading zeros.
pub open spec fn decimal_text(n: u8) -> Seq<char> {
    if n < 10 {
        seq![digit_char(n)]
    } else if n < 100 {
        seq![digit_char(n / 10), digit_char(n % 10)]
    } else {
        seq![digit_char(n / 100), digit_char((n / 10) % 10), digit_char(n % 10)]
    }
}

/// The menu label of a device: its name, followed by ` (<level>)%` when the
/// battery level is known.
pub open spec fn label_text(d: BTDevice) -> Seq<char> {
    match d.battery_percentage {
        None => d.name@,
        Some(p) => d.name@ + seq![' ', '('] + decimal_text(p) + seq![')', '%'],
    }
}

/// Relies on `u8::to_string` (std's `Display` for `u8`): the value in decimal,
/// without leading zeros.
#[verifier::external_body]
fn decimal(n: u8) -> (r: String)
    ensures
        r@ == decimal_text(n),
{
    n.to_string()
}

/// The menu label of a device.
pub fn device_label(d: &BTDevice) -> (r: String)
    ensures
        r@ == label_text(*d),
{
    match d.battery_percentage {
        None => d.name.clone(),
        Some(p) => {
            proof {
                reveal_strlit(" (");
                reveal_strlit(")%");
            }
            let digits = decimal(p);
            let label = d.name.clone().concat(" (").concat(digits.as_str()).concat(")%");
            assert(" ("@ =~= seq![' ', '(']);
            assert(")%"@ =~= seq![')', '%']);
            label
        },
    }
}

/// The kind of a menu entry.
#[derive(Debug, Clone, Copy, PartialEq, Eq, Structural)]
pub enum EntryKind {
    Checkmark,
    Standard,
    Separator,
    SubMenu,
}

/// One entry of the tray menu. An entry that can be activated carries, as an
/// owned copy, the intent it posts, so that it stays valid after the snapshot
/// it was built from has been replaced. A submenu entry holds its entries.
#[derive(Debug)]
pub struct MenuEntry {
    pub kind: EntryKind,
    pub label: String,
    pub checked: bool,
    pub enabled: bool,
    pub activation: Option<Action>,
    pub submenu: Vec<MenuEntry>,
}

fn separator() -> (r: MenuEntry)
    ensures
        r.kind == EntryKind::Separator,
        r.label@.len() == 0,
        !r.checked,
        !r.enabled,
        r.activation is None,
{
    MenuEntry {
        kind: EntryKind::Separator,
        label: String::new(),
        checked: false,
        enabled: false,
        activation: None,
        submenu: Vec::new(),
    }
}

fn caption(text: &str) -> (r: MenuEntry)
    ensures
        r.kind == EntryKind::Standard,
        r.label@ == text@,
        !r.checked,
        !r.enabled,
        r.activation is None,
{
    MenuEntry {
        kind: EntryKind::Standard,
        label: String::from_str(text),
        checked: false,
        enabled: false,
        activation: None,
        submenu: Vec::new(),
    }
}

/// `e` is a separator.
pub open spec fn is_separator(e: MenuEntry) -> bool {
    e.kind == EntryKind::Separator && e.label@.len() == 0 && !e.checked && !e.enabled
        && e.activation is None
}

/// `e` is a disabled caption reading `text`.
pub open spec fn is_caption(e: MenuEntry, text: Seq<char>) -> bool {
    e.kind == EntryKind::Standard && e.label@ == text && !e.checked && !e.enabled
        && e.activation is None
}

/// `e` is the checkable entry of device `d`, which posts a toggle of `d`.
pub open spec fn is_device_entry(e: MenuEntry, d: BTDevice) -> bool {
    e.kind == EntryKind::Checkmark && e.label@ == label_text(d) && e.checked == device_is_on(d)
        && e.enabled && e.activation == Some(Action::ToggleDevice(d))
}

/// `entries` is the device submenu for `devices`: a caption and a separator,
/// then one entry per device in order, or a disabled note when there is none.
pub open spec fn is_device_menu(entries: Seq<MenuEntry>, devices: Seq<BTDevice>) -> bool {
    &&& devices.len() > 0 ==> entries.len() == devices.len() + 2
    &&& devices.len() == 0 ==> entries.len() == 3 && is_caption(entries[2], "No devices found"@)
    &&& is_caption(entries[0], "My Devices"@)
    &&& is_separator(entries[1])
    &&& forall|i: int| 0 <= i < devices.len() ==> is_device_entry(#[trigger] entries[i + 2], devices[i])
}

/// Which of the two icons the tray shows.
#[derive(Debug, Clone, Copy, PartialEq, Eq, Structural)]
pub enum IconKind {
    On,
    Off,
}

/// The indicator's copy of the current snapshot.
#[derive(Debug)]
pub struct Tray {
    pub state: BTState,
}

impl Tray {
    /// Starts from the default snapshot: powered off, no devices.
    pub fn new() -> (r: Tray)
        ensures
            !r.state.on,
            r.state.devices@.len() == 0,
    {
        Tray { state: BTState::default() }
    }

    /// Replaces the shown snapshot.
    pub fn update(&mut self, state: BTState)
        ensures
            final(self).state.on == state.on,
            final(self).state.devices@ == state.devices@,
    {
        self.state = state;
    }

    /// The icon for the power flag.
    pub fn icon(&self) -> (r: IconKind)
        ensures
            r == (if self.state.on {
                IconKind::On
            } else {
                IconKind::Off
            }),
    {
        if self.state.on {
            IconKind::On
        } else {
            IconKind::Off
        }
    }

    /// The whole menu: the power entry, checked when powered, which posts a
    /// power toggle; a separator; and the "Devices" submenu.
    pub fn menu(&self) -> (r: Vec<MenuEntry>)
        ensures
            r@.len() == 3,
            r@[0].kind == EntryKind::Checkmark,
            r@[0].label@ == "Bluetooth"@,
            r@[0].checked == self.state.on,
            r@[0].enabled,
            r@[0].activation == Some(Action::ToggleBluetooth),
            is_separator(r@[1]),
            r@[2].kind == EntryKind::SubMenu,
            r@[2].label@ == "Devices"@,
            r@[2].enabled,
            r@[2].activation is None,
            is_device_menu(r@[2].submenu@, self.state.devices@),
    {
        let mut entries: Vec<MenuEntry> = Vec::new();
        entries.push(
            MenuEntry {
                kind: EntryKind::Checkmark,
                label: String::from_str("Bluetooth"),
                checked: self.state.on,
                enabled: true,
                activation: Some(Action::ToggleBluetooth),
                submenu: Vec::new(),
            },
        );
        entries.push(separator());
        entries.push(
            MenuEntry {
                kind: EntryKind::SubMenu,
                label: String::from_str("Devices"),
                checked: false,
                enabled: true,
                activation: None,
                submenu: self.device_menu(),
            },
        );
        entries
    }

    /// The device submenu: a caption and a separator, then one checkable entry
    /// per device in snapshot order, or a disabled note when there is none.
    pub fn device_menu(&self) -> (r: Vec<MenuEntry>)
        ensures
            is_device_menu(r@, self.state.devices@),
    {
        let mut entries: Vec<MenuEntry> = Vec::new();
        entries.push(caption("My Devices"));
        entries.push(separator());
        let n = self.state.devices.len();
        let mut i: usize = 0;
        while i < n
            invariant
                n == self.state.devices@.len(),
                i <= n,
                entries@.len() == i + 2,
                is_caption(entries@[0], "My Devices"@),
                is_separator(entries@[1]),
                forall|k: int|
                    0 <= k < i ==> is_device_entry(
                        #[trigger] entries@[k + 2],
                        self.state.devices@[k],
                    ),
            decreases n - i,
        {
            let d = &self.state.devices[i];
            let entry = MenuEntry {
                kind: EntryKind::Checkmark,
                label: device_label(d),
                checked: d.is_on(),
                enabled: true,
                activation: Some(Action::ToggleDevice(d.clone())),
                submenu: Vec::new(),
            };
            entries.push(entry);
            i = i + 1;
        }
        if n == 0 {
            entries.push(caption("No devices found"));
        }
        entries
    }
}

/// An icon in the publish format: four bytes per pixel, alpha first.
#[derive(Debug)]
pub struct Icon {
    pub width: i32,
    pub height: i32,
    pub data: Vec<u8>,
}

/// Index of the source byte that lands at `i` when each four-byte pixel is
/// rotated right by one.
pub open spec fn rotated_index(i: int) -> int {
    if i % 4 == 0 {
        i + 3
    } else {
        i - 1
    }
}

/// Pixels turned from RGBA to ARGB order.
pub open spec fn argb_of(rgba: Seq<u8>) -> Seq<u8> {
    Seq::new(rgba.len(), |i: int| rgba[rotated_index(i)])
}

/// Turns RGBA pixels into ARGB pixels in place.
pub fn rgba_to_argb(data: &mut Vec<u8>)
    requires
        old(data)@.len() % 4 == 0,
    ensures
        final(data)@ == argb_of(old(data)@),
{
    let ghost src = data@;
    let n = data.len();
    let mut i: usize = 0;
    while i < n
        invariant
            n == src.len(),
            n % 4 == 0,
            data@.len() == n,
            i <= n,
            i % 4 == 0,
            forall|k: int| 0 <= k < i ==> #[trigger] data@[k] == src[rotated_index(k)],
            forall|k: int| i <= k < n ==> #[trigger] data@[k] == src[k],
        decreases n - i,
    {
        let r = data[i];
        let g = data[i + 1];
        let b = data[i + 2];
        let a = data[i + 3];
        data.set(i, a);
        data.set(i + 1, r);
        data.set(i + 2, g);
        data.set(i + 3, b);
        i = i + 4;
    }
    assert(data@ =~= argb_of(src));
}

/// Largest value of an `i32`.
pub const I32_MAX: u32 = 0x7fff_ffff;

/// The icon for decoded RGBA pixels of the given size; `None` when the buffer
/// is not whole pixels or a side does not fit in an `i32`.
pub fn icon_from_rgba(width: u32, height: u32, rgba: Vec<u8>) -> (r: Option<Icon>)
    ensures
        r is Some <==> (rgba@.len() % 4 == 0 && width <= I32_MAX && height <= I32_MAX),
        r matches Some(icon) ==> icon.width == width && icon.height == height && icon.data@
            == argb_of(rgba@),
{
    if rgba.len() % 4 != 0 || width > I32_MAX || height > I32_MAX {
        return None;
    }
    let mut data = rgba;
    rgba_to_argb(&mut data);
    Some(Icon { width: width as i32, height: height as i32, data })
}

/// What the image crate decodes from PNG bytes: width, height and RGBA pixels.
pub uninterp spec fn png_rgba(bytes: Seq<u8>) -> Option<(u32, u32, Seq<u8>)>;

/// Largest number of bytes a decoded image may take under the image crate's
/// default limits (512 MiB).
pub const DECODE_ALLOC_LIMIT: u64 = 536_870_912;

/// Relies on image::load_from_memory_with_format with the PNG format, then
/// `DynamicImage::{width, height, into_rgba8}`: the result depends on the bytes
/// alone; the png crate refuses a side of zero; the decoded image, at least one
/// byte per pixel, fits the default allocation limit; and the RGBA buffer holds
/// four bytes for each of the `w * h` pixels.
#[verifier::external_body]
fn decode_png(bytes: &[u8]) -> (r: Option<(u32, u32, Vec<u8>)>)
    ensures
        r is None <==> png_rgba(bytes@) is None,
        r matches Some((w, h, d)) ==> png_rgba(bytes@) == Some((w, h, d@)),
        r matches Some((w, h, d)) ==> 1 <= w && 1 <= h && w * h <= DECODE_ALLOC_LIMIT
            && d@.len() == 4 * w * h,
{
    match image::load_from_memory_with_format(bytes, image::ImageFormat::Png) {
        Ok(img) => Some((img.width(), img.height(), img.into_rgba8().into_raw())),
        Err(_) => None,
    }
}

/// Decodes a PNG image into an icon: `None` exactly when the bytes do not decode.
pub fn icon_from_png(bytes: &[u8]) -> (r: Option<Icon>)
    ensures
        r is None <==> png_rgba(bytes@) is None,
        r matches Some(icon) ==> png_rgba(bytes@) matches Some((w, h, d)) && icon.width == w
            && icon.height == h && icon.data@ == argb_of(d),
{
    match decode_png(bytes) {
        None => None,
        Some((w, h, d)) => {
            proof {
                let (wi, hi) = (w as int, h as int);
                assert(wi <= wi * hi && hi <= wi * hi) by (nonlinear_arith)
                    requires
                        1 <= wi,
                        1 <= hi,
                ;
                assert((4 * (wi * hi)) % 4 == 0) by (nonlinear_arith);
                assert(4 * wi * hi == 4 * (wi * hi)) by (nonlinear_arith);
            }
            icon_from_rgba(w, h, d)
        },
    }
}

} // verus!
