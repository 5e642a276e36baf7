//! The status line of the taskbar widget: one entry per connected device.

use crate::text::{
    chars_le, chars_of, lemma_text_le_total, lemma_text_le_transitive, text_le,
};
use vstd::prelude::*;

verus! {

/// One connected device: its battery level in percent, its name, the icon
/// that stands for its type, and its address.
#[derive(Debug)]
pub struct BluetoothStatus {
    pub bat: u8,
    pub name: String,
    pub btype: String,
    pub address: String,
}

/// What the taskbar shows: a text and the style class it is drawn in.
#[derive(Debug)]
pub struct WaybarStatus {
    pub text: String,
    pub class: String,
}

/// The battery symbol for a level, followed by a space: full from 81 to 100
/// and for anything beyond, three quarters from 40 to 80, a quarter from 20
/// to 39, empty below 20.
pub open spec fn battery_text(bat: u8) -> Seq<char> {
    if bat >= 81 {
        seq!['\u{f240}', ' ']
    } else if bat >= 40 {
        seq!['\u{f241}', ' ']
    } else if bat >= 20 {
        seq!['\u{f243}', ' ']
    } else {
        seq!['\u{f244}', ' ']
    }
}

/// The entry of one device: its icon and its battery symbol in brackets,
/// after a space.
pub open spec fn entry_text(btype: Seq<char>, bat: u8) -> Seq<char> {
    seq![' ', '['] + btype + seq![' '] + battery_text(bat) + seq![']']
}

/// The whole text: the bluetooth symbol, then the entries in their order.
pub open spec fn status_text(devices: Seq<BluetoothStatus>) -> Seq<char>
    decreases devices.len(),
{
    if devices.len() == 0 {
        seq!['\u{f293}']
    } else {
        status_text(devices.drop_last()) + entry_text(
            devices.last().btype@,
            devices.last().bat,
        )
    }
}

/// The style class of every status.
pub open spec fn default_class() -> Seq<char> {
    seq!['d', 'e', 'f', 'a', 'u', 'l', 't']
}

/// The icon for a device type as the bus names it: a symbol for mice,
/// keyboards and headsets, the name itself for any other type.
pub open spec fn icon_text(icon_type: Seq<char>) -> Seq<char> {
    if icon_type == "input-mouse"@ {
        seq!['\u{f8cc}']
    } else if icon_type == "input-keyboard"@ {
        seq!['\u{f11c}']
    } else if icon_type == "audio-headset"@ || icon_type == "audio-headphones"@ {
        seq!['\u{f025}']
    } else {
        icon_type
    }
}

fn battery_symbol(bat: u8) -> (symbol: &'static str)
    ensures
        symbol@ == battery_text(bat),
{
    proof {
        reveal_strlit("\u{f240} ");
        reveal_strlit("\u{f241} ");
        reveal_strlit("\u{f243} ");
        reveal_strlit("\u{f244} ");
    }
    let symbol = if bat >= 81 {
        "\u{f240} "
    } else if bat >= 40 {
        "\u{f241} "
    } else if bat >= 20 {
        "\u{f243} "
    } else {
        "\u{f244} "
    };
    assert(symbol@ =~= battery_text(bat));
    symbol
}

/// The icon for a device type. See [`icon_text`].
pub fn device_icon(icon_type: String) -> (icon: String)
    ensures
        icon@ == icon_text(icon_type@),
{
    proof {
        reveal_strlit("\u{f8cc}");
        reveal_strlit("\u{f11c}");
        reveal_strlit("\u{f025}");
    }
    let icon = if icon_type == String::from_str("input-mouse") {
        String::from_str("\u{f8cc}")
    } else if icon_type == String::from_str("input-keyboard") {
        String::from_str("\u{f11c}")
    } else if icon_type == String::from_str("audio-headset") || icon_type == String::from_str(
        "audio-headphones",
    ) {
        String::from_str("\u{f025}")
    } else {
        icon_type
    };
    assert(icon@ =~= icon_text(icon_type@));
    icon
}

/// The status of one bus object, from the properties read of it: a device
/// only where it is reported as connected and has a name, an address and an
/// icon type. A device without a battery level counts as empty.
pub fn connected_device(
    connected: Option<bool>,
    name: Option<String>,
    address: Option<String>,
    icon_type: Option<String>,
    battery: Option<u8>,
) -> (device: Option<BluetoothStatus>)
    ensures
        device is Some <==> connected == Some(true) && name is Some && address is Some
            && icon_type is Some,
        device matches Some(d) ==> {
            &&& d.name@ == name->Some_0@
            &&& d.address@ == address->Some_0@
            &&& d.btype@ == icon_text(icon_type->Some_0@)
            &&& d.bat == (match battery {
                Some(level) => level,
                None => 0u8,
            })
        },
{
    match connected {
        Some(true) => {},
        _ => { return None; },
    }
    match (name, address, icon_type) {
        (Some(name), Some(address), Some(icon_type)) => {
            let bat: u8 = match battery {
                Some(level) => level,
                None => 0,
            };
            Some(BluetoothStatus { bat, name, btype: device_icon(icon_type), address })
        },
        _ => None,
    }
}

/// The status line for the devices, in their order. See [`status_text`].
pub fn format_waybar(devices: &Vec<BluetoothStatus>) -> (status: WaybarStatus)
    ensures
        status.text@ == status_text(devices@),
        status.class@ == default_class(),
{
    proof {
        reveal_strlit("\u{f293}");
        reveal_strlit("default");
    }
    let mut text = String::from_str("\u{f293}");
    assert(text@ =~= status_text(devices@.take(0)));
    let mut i: usize = 0;
    while i < devices.len()
        invariant
            i <= devices.len(),
            text@ == status_text(devices@.take(i as int)),
        decreases devices.len() - i,
    {
        let ghost before = text@;
        let entry = &devices[i];
        text.append(" [");
        text.append(entry.btype.as_str());
        text.append(" ");
        text.append(battery_symbol(entry.bat));
        text.append("]");
        proof {
            reveal_strlit(" [");
            reveal_strlit(" ");
            reveal_strlit("]");
            assert(devices@.take(i + 1).drop_last() =~= devices@.take(i as int));
            assert(devices@.take(i + 1).last() == devices@[i as int]);
            assert(text@ =~= before + entry_text(entry.btype@, entry.bat));
        }
        i += 1;
    }
    proof {
        assert(devices@.take(i as int) =~= devices@);
    }
    let class = String::from_str("default");
    assert(class@ =~= default_class());
    WaybarStatus { text, class }
}

/// A list ordered by name with one more device put in: behind every device
/// whose name does not come after its own, so that devices of one name keep
/// the order in which they came.
pub open spec fn placed(sorted: Seq<BluetoothStatus>, device: BluetoothStatus) -> Seq<
    BluetoothStatus,
>
    decreases sorted.len(),
{
    if sorted.len() == 0 || text_le(sorted.last().name@, device.name@) {
        sorted.push(device)
    } else {
        placed(sorted.drop_last(), device).push(sorted.last())
    }
}

/// The devices ordered by name; devices of one name keep their order.
pub open spec fn by_name(devices: Seq<BluetoothStatus>) -> Seq<BluetoothStatus>
    decreases devices.len(),
{
    if devices.len() == 0 {
        Seq::empty()
    } else {
        placed(by_name(devices.drop_last()), devices.last())
    }
}

/// Whether no device stands before one whose name comes first.
pub open spec fn ordered_by_name(devices: Seq<BluetoothStatus>) -> bool {
    forall|i: int, j: int|
        0 <= i < j < devices.len() ==> text_le(
            (#[trigger] devices[i]).name@,
            (#[trigger] devices[j]).name@,
        )
}

/// Where a device of that name belongs in a list: behind the last device
/// whose name does not come after it.
fn place_of(sorted: &Vec<BluetoothStatus>, name: &Vec<char>) -> (at: usize)
    ensures
        at <= sorted.len(),
        at == 0 || text_le(sorted@[at - 1].name@, name@),
        forall|k: int| at <= k < sorted.len() ==> !text_le((#[trigger] sorted@[k]).name@, name@),
{
    let mut at: usize = sorted.len();
    while at > 0
        invariant
            at <= sorted.len(),
            forall|k: int|
                at <= k < sorted.len() ==> !text_le((#[trigger] sorted@[k]).name@, name@),
        decreases at,
    {
        let before = chars_of(sorted[at - 1].name.as_str());
        if chars_le(&before, name) {
            return at;
        }
        at -= 1;
    }
    at
}

proof fn lemma_placed_is_insert(sorted: Seq<BluetoothStatus>, device: BluetoothStatus, at: int)
    requires
        0 <= at <= sorted.len(),
        at == 0 || text_le(sorted[at - 1].name@, device.name@),
        forall|k: int|
            at <= k < sorted.len() ==> !text_le((#[trigger] sorted[k]).name@, device.name@),
    ensures
        placed(sorted, device) == sorted.insert(at, device),
    decreases sorted.len(),
{
    if at == sorted.len() {
        assert(sorted.push(device) =~= sorted.insert(at, device));
    } else {
        assert(!text_le(sorted.last().name@, device.name@));
        lemma_placed_is_insert(sorted.drop_last(), device, at);
        assert(sorted.drop_last().insert(at, device).push(sorted.last()) =~= sorted.insert(
            at,
            device,
        ));
    }
}

/// Orders the devices by name. See [`by_name`].
pub fn sort_by_name(devices: Vec<BluetoothStatus>) -> (sorted: Vec<BluetoothStatus>)
    ensures
        sorted@ == by_name(devices@),
{
    let ghost all = devices@;
    let mut sorted: Vec<BluetoothStatus> = Vec::new();
    for device in it: devices.into_iter()
        invariant
            it.seq() == all,
            sorted@ == by_name(all.take(it.index() as int)),
    {
        let name = chars_of(device.name.as_str());
        let at = place_of(&sorted, &name);
        proof {
            lemma_placed_is_insert(sorted@, device, at as int);
            assert(all.take(it.index() + 1).drop_last() =~= all.take(it.index() as int));
            assert(all.take(it.index() + 1).last() == device);
        }
        sorted.insert(at, device);
    }
    proof {
        assert(all.take(all.len() as int) =~= all);
    }
    sorted
}

proof fn lemma_placed_ordered(sorted: Seq<BluetoothStatus>, device: BluetoothStatus)
    requires
        ordered_by_name(sorted),
    ensures
        ordered_by_name(placed(sorted, device)),
        placed(sorted, device).len() == sorted.len() + 1,
        placed(sorted, device).to_multiset() == sorted.to_multiset().insert(device),
        forall|k: int|
            0 <= k < placed(sorted, device).len() ==> (#[trigger] placed(sorted, device)[k])
                == device || sorted.contains(placed(sorted, device)[k]),
    decreases sorted.len(),
{
    broadcast use vstd::seq_lib::group_to_multiset_ensures;

    let result = placed(sorted, device);
    if sorted.len() == 0 || text_le(sorted.last().name@, device.name@) {
        assert forall|i: int, j: int| 0 <= i < j < result.len() implies text_le(
            (#[trigger] result[i]).name@,
            (#[trigger] result[j]).name@,
        ) by {
            if j == sorted.len() && i < sorted.len() - 1 {
                lemma_text_le_transitive(sorted[i].name@, sorted.last().name@, device.name@);
            }
        }
        assert forall|k: int| 0 <= k < result.len() implies (#[trigger] result[k]) == device
            || sorted.contains(result[k]) by {
            if k < sorted.len() {
                assert(sorted[k] == result[k]);
            }
        }
    } else {
        let head = sorted.drop_last();
        let inner = placed(head, device);
        assert(ordered_by_name(head));
        lemma_placed_ordered(head, device);
        lemma_text_le_total(sorted.last().name@, device.name@);
        assert forall|i: int, j: int| 0 <= i < j < result.len() implies text_le(
            (#[trigger] result[i]).name@,
            (#[trigger] result[j]).name@,
        ) by {
            if j == inner.len() {
                if inner[i] != device {
                    let k = choose|k: int| 0 <= k < head.len() && head[k] == inner[i];
                    assert(sorted[k] == inner[i]);
                    if k < sorted.len() - 1 {
                        assert(text_le(sorted[k].name@, sorted[sorted.len() - 1].name@));
                    }
                }
            } else {
                assert(inner[i] == result[i] && inner[j] == result[j]);
            }
        }
        assert(sorted =~= head.push(sorted.last()));
        assert(result.to_multiset() =~= sorted.to_multiset().insert(device));
        assert forall|k: int| 0 <= k < result.len() implies (#[trigger] result[k]) == device
            || sorted.contains(result[k]) by {
            if k < inner.len() {
                if inner[k] != device {
                    let m = choose|m: int| 0 <= m < head.len() && head[m] == inner[k];
                    assert(sorted[m] == result[k]);
                }
            } else {
                assert(sorted[sorted.len() - 1] == result[k]);
            }
        }
    }
}

/// Ordering by name yields a list in which no device stands before one
/// whose name comes first, and which holds the same devices as often.
pub proof fn lemma_by_name_orders(devices: Seq<BluetoothStatus>)
    ensures
        ordered_by_name(by_name(devices)),
        by_name(devices).len() == devices.len(),
        by_name(devices).to_multiset() == devices.to_multiset(),
    decreases devices.len(),
{
    broadcast use vstd::seq_lib::group_to_multiset_ensures;

    if devices.len() > 0 {
        lemma_by_name_orders(devices.drop_last());
        lemma_placed_ordered(by_name(devices.drop_last()), devices.last());
        assert(devices =~= devices.drop_last().push(devices.last()));
    } else {
        assert(devices =~= Seq::<BluetoothStatus>::empty());
    }
}

} // verus!
