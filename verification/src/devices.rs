//! Building user-visible device lists from raw enumeration callbacks.
//!
//! The unverified shell drives the audio server's event loop: it records
//! the server's default source (or sink) name and collects one
//! [`DeviceInfo`] per device-info callback, in delivery order, stopping at
//! either terminal callback. The functions here turn that raw material into
//! the final device lists: for inputs, synthetic monitor sources are
//! excluded; for outputs every named device is kept; each entry's display
//! name falls back to the raw identifier, and `is_default` marks exactly
//! the entries whose identifier equals the captured default name.

use vstd::prelude::*;

verus! {

/// The suffix that marks a raw source identifier as the synthetic monitor
/// of an output sink.
pub open spec fn monitor_suffix() -> Seq<char> {
    ".monitor"@
}

/// A raw identifier denotes a monitor source when the monitor suffix occurs
/// anywhere in it.
pub open spec fn is_monitor_name(name: Seq<char>) -> bool {
    exists|i: int|
        0 <= i && i + monitor_suffix().len() <= name.len() && #[trigger] name.subrange(
            i,
            i + monitor_suffix().len(),
        ) == monitor_suffix()
}

/// An identifier that ends in the monitor suffix denotes a monitor source.
pub proof fn lemma_monitor_suffix_at_end(name: Seq<char>)
    requires
        name.len() >= monitor_suffix().len(),
        name.subrange(name.len() - monitor_suffix().len(), name.len() as int) == monitor_suffix(),
    ensures
        is_monitor_name(name),
{
    let i = name.len() - monitor_suffix().len();
    assert(0 <= i && i + monitor_suffix().len() <= name.len() && name.subrange(
        i,
        i + monitor_suffix().len(),
    ) == monitor_suffix());
}

/// Whether the monitor suffix stands at position `at` of `name`.
fn matches_monitor_suffix_at(name: &str, at: usize, len: usize) -> (b: bool)
    requires
        len == name@.len(),
        at + monitor_suffix().len() <= name@.len(),
    ensures
        b == (name@.subrange(at as int, at as int + monitor_suffix().len()) == monitor_suffix()),
{
    let suffix: &str = ".monitor";
    proof {
        reveal_strlit(".monitor");
    }
    let mut j: usize = 0;
    while j < 8
        invariant
            suffix@ == monitor_suffix(),
            suffix@.len() == 8,
            j <= 8,
            len == name@.len(),
            at + 8 <= len,
            forall|k: int| 0 <= k < j ==> name@[at + k] == suffix@[k],
        decreases 8 - j,
    {
        let c = name.get_char(at + j);
        let s = suffix.get_char(j);
        if c != s {
            proof {
                assert(name@.subrange(at as int, at as int + 8)[j as int] == name@[at + j]);
                assert(name@.subrange(at as int, at as int + 8) != monitor_suffix());
            }
            return false;
        }
        j += 1;
    }
    proof {
        assert(name@.subrange(at as int, at as int + 8) =~= monitor_suffix());
    }
    true
}

/// Whether the raw identifier denotes a monitor source.
pub fn name_has_monitor_suffix(name: &str) -> (b: bool)
    ensures
        b == is_monitor_name(name@),
{
    proof {
        reveal_strlit(".monitor");
    }
    let len = name.unicode_len();
    if len < 8 {
        return false;
    }
    let mut i: usize = 0;
    while i <= len - 8
        invariant
            monitor_suffix().len() == 8,
            len == name@.len(),
            8 <= len,
            i <= len,
            forall|k: int|
                0 <= k < i ==> #[trigger] name@.subrange(k, k + monitor_suffix().len())
                    != monitor_suffix(),
        decreases len - i,
    {
        if matches_monitor_suffix_at(name, i, len) {
            proof {
                assert(0 <= i as int && i as int + monitor_suffix().len() <= name@.len()
                    && name@.subrange(i as int, i as int + monitor_suffix().len())
                    == monitor_suffix());
            }
            return true;
        }
        i += 1;
    }
    proof {
        assert(!is_monitor_name(name@)) by {
            if is_monitor_name(name@) {
                let w = choose|w: int|
                    0 <= w && w + monitor_suffix().len() <= name@.len() && #[trigger] name@.subrange(
                        w,
                        w + monitor_suffix().len(),
                    ) == monitor_suffix();
                assert(w < i);
                assert(name@.subrange(w, w + monitor_suffix().len()) != monitor_suffix());
            }
        }
    }
    false
}

/// What one device-info callback delivers: the raw identifier the server
/// assigned (absent for anonymous entries, which are skipped) and an
/// optional human-readable description.
#[derive(Clone, Debug)]
pub struct DeviceInfo {
    pub name: Option<String>,
    pub description: Option<String>,
}

/// Spec-level image of [`DeviceInfo`].
pub ghost struct DeviceInfoV {
    pub name: Option<Seq<char>>,
    pub description: Option<Seq<char>>,
}

impl View for DeviceInfo {
    type V = DeviceInfoV;

    open spec fn view(&self) -> DeviceInfoV {
        DeviceInfoV { name: self.name.deep_view(), description: self.description.deep_view() }
    }
}

impl DeepView for DeviceInfo {
    type V = DeviceInfoV;

    open spec fn deep_view(&self) -> DeviceInfoV {
        self.view()
    }
}

/// A user-selectable audio device as the library reports it: the stable
/// server-assigned identifier, a human-readable name, and whether the
/// device is the server's currently configured default.
#[derive(Clone, Debug)]
pub struct AudioDevice {
    pub id: String,
    pub name: String,
    pub is_default: bool,
}

/// Spec-level image of [`AudioDevice`].
pub ghost struct AudioDeviceV {
    pub id: Seq<char>,
    pub name: Seq<char>,
    pub is_default: bool,
}

impl View for AudioDevice {
    type V = AudioDeviceV;

    open spec fn view(&self) -> AudioDeviceV {
        AudioDeviceV { id: self.id@, name: self.name@, is_default: self.is_default }
    }
}

impl DeepView for AudioDevice {
    type V = AudioDeviceV;

    open spec fn deep_view(&self) -> AudioDeviceV {
        self.view()
    }
}

/// The entry built for one named item: the description when one is offered,
/// else the raw identifier; the default flag exactly when the identifier
/// equals the captured default name.
pub open spec fn device_entry(
    name: Seq<char>,
    description: Option<Seq<char>>,
    default_name: Option<Seq<char>>,
) -> AudioDeviceV {
    AudioDeviceV {
        id: name,
        name: match description {
            Some(d) => d,
            None => name,
        },
        is_default: default_name == Some(name),
    }
}

/// The input device list built from raw items: named items in delivery
/// order, monitor sources excluded.
pub open spec fn input_devices(
    items: Seq<DeviceInfoV>,
    default_name: Option<Seq<char>>,
) -> Seq<AudioDeviceV>
    decreases items.len(),
{
    if items.len() == 0 {
        Seq::empty()
    } else {
        let rest = input_devices(items.drop_last(), default_name);
        match items.last().name {
            Some(n) => if !is_monitor_name(n) {
                rest.push(device_entry(n, items.last().description, default_name))
            } else {
                rest
            },
            None => rest,
        }
    }
}

/// The output device list built from raw items: every named item in
/// delivery order; monitors are never excluded here.
pub open spec fn output_devices(
    items: Seq<DeviceInfoV>,
    default_name: Option<Seq<char>>,
) -> Seq<AudioDeviceV>
    decreases items.len(),
{
    if items.len() == 0 {
        Seq::empty()
    } else {
        let rest = output_devices(items.drop_last(), default_name);
        match items.last().name {
            Some(n) => rest.push(device_entry(n, items.last().description, default_name)),
            None => rest,
        }
    }
}

/// Construct one device entry.
fn build_entry(name: &String, description: &Option<String>, default_name: &Option<String>) -> (d:
    AudioDevice)
    ensures
        d@ == device_entry(name@, description.deep_view(), default_name.deep_view()),
{
    let device_name = match description {
        Some(d) => d.clone(),
        None => name.clone(),
    };
    let is_default = match default_name {
        Some(def) => *def == *name,
        None => false,
    };
    AudioDevice { id: name.clone(), name: device_name, is_default }
}

/// Build the input device list delivered by one enumeration: one entry per
/// named item in delivery order, with monitor sources excluded, display
/// names falling back to the identifier, and the default flag set against
/// the captured default source name.
pub fn collect_input_devices(items: &Vec<DeviceInfo>, default_source: &Option<String>) -> (devices:
    Vec<AudioDevice>)
    ensures
        devices.deep_view() == input_devices(items.deep_view(), default_source.deep_view()),
{
    let mut devices: Vec<AudioDevice> = Vec::new();
    let mut idx: usize = 0;
    proof {
        assert(items.deep_view().take(0) =~= Seq::<DeviceInfoV>::empty());
    }
    while idx < items.len()
        invariant
            idx <= items@.len(),
            items.deep_view().len() == items@.len(),
            devices.deep_view() == input_devices(
                items.deep_view().take(idx as int),
                default_source.deep_view(),
            ),
        decreases items@.len() - idx,
    {
        let ghost prefix = items.deep_view().take(idx as int);
        let ghost step = items.deep_view().take(idx as int + 1);
        proof {
            assert(step.drop_last() =~= prefix);
            assert(step.last() == items.deep_view()[idx as int]);
        }
        let item = &items[idx];
        match &item.name {
            Some(name) => {
                if !name_has_monitor_suffix(name.as_str()) {
                    let ghost before = devices.deep_view();
                    let entry = build_entry(name, &item.description, default_source);
                    devices.push(entry);
                    proof {
                        assert(devices.deep_view() =~= before.push(entry@));
                    }
                }
            },
            None => {},
        }
        idx += 1;
    }
    proof {
        assert(items.deep_view().take(items@.len() as int) =~= items.deep_view());
    }
    devices
}

/// Build the output device list delivered by one enumeration: one entry per
/// named item in delivery order — monitors included — with display names
/// falling back to the identifier, and the default flag set against the
/// captured default sink name.
pub fn collect_output_devices(items: &Vec<DeviceInfo>, default_sink: &Option<String>) -> (devices:
    Vec<AudioDevice>)
    ensures
        devices.deep_view() == output_devices(items.deep_view(), default_sink.deep_view()),
{
    let mut devices: Vec<AudioDevice> = Vec::new();
    let mut idx: usize = 0;
    proof {
        assert(items.deep_view().take(0) =~= Seq::<DeviceInfoV>::empty());
    }
    while idx < items.len()
        invariant
            idx <= items@.len(),
            items.deep_view().len() == items@.len(),
            devices.deep_view() == output_devices(
                items.deep_view().take(idx as int),
                default_sink.deep_view(),
            ),
        decreases items@.len() - idx,
    {
        let ghost prefix = items.deep_view().take(idx as int);
        let ghost step = items.deep_view().take(idx as int + 1);
        proof {
            assert(step.drop_last() =~= prefix);
            assert(step.last() == items.deep_view()[idx as int]);
        }
        let item = &items[idx];
        match &item.name {
            Some(name) => {
                let ghost before = devices.deep_view();
                let entry = build_entry(name, &item.description, default_sink);
                devices.push(entry);
                proof {
                    assert(devices.deep_view() =~= before.push(entry@));
                }
            },
            None => {},
        }
        idx += 1;
    }
    proof {
        assert(items.deep_view().take(items@.len() as int) =~= items.deep_view());
    }
    devices
}

/// No input entry carries a monitor identifier: an item whose raw
/// identifier denotes a monitor source is excluded from the input list.
pub proof fn lemma_inputs_exclude_monitors(items: Seq<DeviceInfoV>, default_name: Option<Seq<char>>)
    ensures
        forall|k: int|
            0 <= k < input_devices(items, default_name).len() ==> !is_monitor_name(
                #[trigger] input_devices(items, default_name)[k].id,
            ),
    decreases items.len(),
{
    if items.len() > 0 {
        lemma_inputs_exclude_monitors(items.drop_last(), default_name);
        let rest = input_devices(items.drop_last(), default_name);
        let full = input_devices(items, default_name);
        assert forall|k: int| 0 <= k < full.len() implies !is_monitor_name(full[k].id) by {
            if k < rest.len() {
                assert(full[k] == rest[k]);
            } else {
                assert(items.last().name is Some && !is_monitor_name(items.last().name->0));
                assert(full[k] == device_entry(
                    items.last().name->0,
                    items.last().description,
                    default_name,
                ));
            }
        }
    }
}

/// Every named item yields an output entry: in particular a monitor source
/// is never excluded from the output list.
pub proof fn lemma_outputs_keep_every_named_item(
    items: Seq<DeviceInfoV>,
    default_name: Option<Seq<char>>,
)
    ensures
        forall|j: int|
            0 <= j < items.len() && items[j].name is Some ==> exists|k: int|
                0 <= k < output_devices(items, default_name).len() && #[trigger] output_devices(
                    items,
                    default_name,
                )[k] == device_entry(items[j].name->0, items[j].description, default_name),
    decreases items.len(),
{
    if items.len() > 0 {
        lemma_outputs_keep_every_named_item(items.drop_last(), default_name);
        let rest = output_devices(items.drop_last(), default_name);
        assert forall|j: int| 0 <= j < items.len() && items[j].name is Some implies exists|k: int|
            0 <= k < output_devices(items, default_name).len() && #[trigger] output_devices(
                items,
                default_name,
            )[k] == device_entry(items[j].name->0, items[j].description, default_name) by {
            if j < items.len() - 1 {
                assert(items.drop_last()[j] == items[j]);
                let k = choose|k: int|
                    0 <= k < rest.len() && #[trigger] rest[k] == device_entry(
                        items.drop_last()[j].name->0,
                        items.drop_last()[j].description,
                        default_name,
                    );
                assert(output_devices(items, default_name)[k] == device_entry(
                    items[j].name->0,
                    items[j].description,
                    default_name,
                ));
            } else {
                let k = rest.len() as int;
                assert(output_devices(items, default_name)[k] == device_entry(
                    items[j].name->0,
                    items[j].description,
                    default_name,
                ));
            }
        }
    }
}

/// `is_default` marks exactly the entries whose identifier equals the
/// captured default name — on both lists; with no default captured, no
/// entry is marked.
pub proof fn lemma_default_flag_exact(items: Seq<DeviceInfoV>, default_name: Option<Seq<char>>)
    ensures
        forall|k: int|
            0 <= k < input_devices(items, default_name).len() ==> ((#[trigger] input_devices(
                items,
                default_name,
            )[k]).is_default <==> default_name == Some(input_devices(items, default_name)[k].id)),
        forall|k: int|
            0 <= k < output_devices(items, default_name).len() ==> ((#[trigger] output_devices(
                items,
                default_name,
            )[k]).is_default <==> default_name == Some(output_devices(items, default_name)[k].id)),
    decreases items.len(),
{
    if items.len() > 0 {
        lemma_default_flag_exact(items.drop_last(), default_name);
        let rest_in = input_devices(items.drop_last(), default_name);
        let full_in = input_devices(items, default_name);
        assert forall|k: int| 0 <= k < full_in.len() implies (full_in[k].is_default <==>
        default_name == Some(full_in[k].id)) by {
            if k < rest_in.len() {
                assert(full_in[k] == rest_in[k]);
            }
        }
        let rest_out = output_devices(items.drop_last(), default_name);
        let full_out = output_devices(items, default_name);
        assert forall|k: int| 0 <= k < full_out.len() implies (full_out[k].is_default <==>
        default_name == Some(full_out[k].id)) by {
            if k < rest_out.len() {
                assert(full_out[k] == rest_out[k]);
            }
        }
    }
}

} // verus!
