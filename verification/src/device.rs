//! The catalog of output devices.
//!
//! The host names its devices and nothing more, so a device is identified by
//! an id derived from its name: spaces become underscores, the result is
//! lowercased and prefixed with `device_`. Two devices whose names normalize to
//! the same text share an id.

use vstd::prelude::*;
use vstd::string::StrSliceExecFns;
use vstd::string::StringExecFns;

verus! {

/// An output device as reported to the caller.
#[derive(Debug, Clone)]
pub struct AudioOutputDevice {
    pub id: String,
    pub name: String,
    pub is_default: bool,
}

/// What an [`AudioOutputDevice`] holds, as plain values.
pub ghost struct DeviceView {
    pub id: Seq<char>,
    pub name: Seq<char>,
    pub is_default: bool,
}

impl View for AudioOutputDevice {
    type V = DeviceView;

    open spec fn view(&self) -> DeviceView {
        DeviceView { id: self.id@, name: self.name@, is_default: self.is_default }
    }
}

/// The name of the device at `index` could not be read from the host.
#[derive(Debug, Clone, Copy, PartialEq, Eq, Structural)]
pub struct DeviceQueryError {
    pub index: usize,
}

/// The lowercase form of `s` under Unicode's case mapping.
pub uninterp spec fn lowercase(s: Seq<char>) -> Seq<char>;

/// `s` with every occurrence of `from` replaced by `to`.
pub open spec fn replaced(s: Seq<char>, from: char, to: Seq<char>) -> Seq<char>
    decreases s.len(),
{
    if s.len() == 0 {
        Seq::empty()
    } else if s.last() == from {
        replaced(s.drop_last(), from, to) + to
    } else {
        replaced(s.drop_last(), from, to).push(s.last())
    }
}

/// The id made of a name that has been normalized: the name behind the
/// prefix `device_`.
pub open spec fn prefixed(normalized: Seq<char>) -> Seq<char> {
    "device_"@ + normalized
}

/// The id of the device named `name`.
pub open spec fn device_id_of(name: Seq<char>) -> Seq<char> {
    prefixed(lowercase(replaced(name, ' ', "_"@)))
}

/// A name as plain text, where there is one.
pub open spec fn text_of(name: Option<String>) -> Option<Seq<char>> {
    match name {
        Some(name) => Some(name@),
        None => None,
    }
}

/// The names that the host reported, each as plain text; `None` stands for a
/// name that could not be read.
pub open spec fn name_views(names: Seq<Option<String>>) -> Seq<Option<Seq<char>>> {
    Seq::new(names.len(), |i: int| text_of(names[i]))
}

/// The requested ids, each as plain text.
pub open spec fn id_views(ids: Seq<String>) -> Seq<Seq<char>> {
    Seq::new(ids.len(), |i: int| ids[i]@)
}

/// The catalog entry of the device named `name` on a host whose default
/// device is named `default_name`.
pub open spec fn listed(name: Seq<char>, default_name: Option<Seq<char>>) -> DeviceView {
    DeviceView { id: device_id_of(name), name, is_default: default_name == Some(name) }
}

/// Whether a device with this name is among the requested ids. A device whose
/// name could not be read is never requested.
pub open spec fn is_requested(name: Option<Seq<char>>, ids: Seq<Seq<char>>) -> bool {
    name is Some && ids.contains(device_id_of(name->Some_0))
}

/// The positions, in host order, of the devices that `ids` asks for.
pub open spec fn requested(names: Seq<Option<Seq<char>>>, ids: Seq<Seq<char>>) -> Seq<nat>
    decreases names.len(),
{
    if names.len() == 0 {
        Seq::empty()
    } else if is_requested(names.last(), ids) {
        requested(names.drop_last(), ids).push((names.len() - 1) as nat)
    } else {
        requested(names.drop_last(), ids)
    }
}

/// Whether `r` is the listing of the devices named `names`: one entry for each
/// device, in host order, where every name could be read, and else the
/// position of the first name that could not.
pub open spec fn is_listing(
    names: Seq<Option<String>>,
    default_name: Option<String>,
    r: Result<Vec<AudioOutputDevice>, DeviceQueryError>,
) -> bool {
    match r {
        Ok(devices) => {
            &&& devices@.len() == names.len()
            &&& forall|i: int| 0 <= i < names.len() ==> (#[trigger] names[i]) is Some
            &&& forall|i: int|
                0 <= i < names.len() ==> (#[trigger] devices@[i])@ == listed(
                    names[i]->Some_0@,
                    text_of(default_name),
                )
        },
        Err(e) => {
            &&& e.index < names.len()
            &&& names[e.index as int] is None
            &&& forall|i: int| 0 <= i < e.index ==> (#[trigger] names[i]) is Some
        },
    }
}

/// Replacing a character that does not occur changes nothing.
pub proof fn replaced_without_occurrence(s: Seq<char>, from: char, to: Seq<char>)
    requires
        !s.contains(from),
    ensures
        replaced(s, from, to) == s,
    decreases s.len(),
{
    if s.len() > 0 {
        let front = s.drop_last();
        assert(s[s.len() - 1] != from);
        assert forall|c: char| front.contains(c) implies s.contains(c) by {
            let i = choose|i: int| 0 <= i < front.len() && front[i] == c;
            assert(s[i] == c);
        }
        replaced_without_occurrence(front, from, to);
        assert(front.push(s.last()) =~= s);
    } else {
        assert(s =~= Seq::empty());
    }
}

/// The id of a name without spaces is the lowercased name behind the prefix.
pub proof fn device_id_without_spaces(name: Seq<char>)
    requires
        !name.contains(' '),
    ensures
        device_id_of(name) == prefixed(lowercase(name)),
        device_id_of(name) == "device_"@ + lowercase(name),
{
    replaced_without_occurrence(name, ' ', "_"@);
}

/// The requested positions are exactly those of the devices that `ids` asks
/// for, each once and in host order.
pub proof fn requested_is_exact(names: Seq<Option<Seq<char>>>, ids: Seq<Seq<char>>)
    ensures
        requested(names, ids).len() <= names.len(),
        forall|k: int|
            0 <= k < requested(names, ids).len() ==> (#[trigger] requested(names, ids)[k])
                < names.len() && is_requested(names[requested(names, ids)[k] as int], ids),
        forall|j: int, k: int|
            0 <= j < k < requested(names, ids).len() ==> requested(names, ids)[j] < requested(
                names,
                ids,
            )[k],
        forall|i: int|
            0 <= i < names.len() && is_requested(#[trigger] names[i], ids) ==> requested(
                names,
                ids,
            ).contains(i as nat),
    decreases names.len(),
{
    if names.len() > 0 {
        let front = names.drop_last();
        let last = (names.len() - 1) as nat;
        requested_is_exact(front, ids);
        let found = requested(names, ids);
        let before = requested(front, ids);
        assert forall|i: int| 0 <= i < names.len() && is_requested(
            #[trigger] names[i],
            ids,
        ) implies found.contains(i as nat) by {
            if i < names.len() - 1 {
                assert(front[i] == names[i]);
                let k = choose|k: int| 0 <= k < before.len() && before[k] == i as nat;
                assert(found[k] == i as nat);
            } else {
                assert(found[found.len() - 1] == last);
            }
        }
        assert forall|k: int| 0 <= k < found.len() implies (#[trigger] found[k]) < names.len()
            && is_requested(names[found[k] as int], ids) by {
            if k < before.len() {
                assert(found[k] == before[k]);
                assert(front[before[k] as int] == names[before[k] as int]);
            }
        }
    }
}

/// No device is requested by an empty list of ids.
pub proof fn nothing_requested_by_no_ids(names: Seq<Option<Seq<char>>>)
    ensures
        requested(names, Seq::empty()).len() == 0,
    decreases names.len(),
{
    if names.len() > 0 {
        nothing_requested_by_no_ids(names.drop_last());
    }
}

/// No device is requested where no readable name derives one of the ids.
pub proof fn nothing_requested_without_match(names: Seq<Option<Seq<char>>>, ids: Seq<Seq<char>>)
    requires
        forall|i: int| 0 <= i < names.len() ==> !is_requested(#[trigger] names[i], ids),
    ensures
        requested(names, ids).len() == 0,
    decreases names.len(),
{
    if names.len() > 0 {
        let front = names.drop_last();
        assert forall|i: int| 0 <= i < front.len() implies !is_requested(
            #[trigger] front[i],
            ids,
        ) by {
            assert(front[i] == names[i]);
        }
        nothing_requested_without_match(front, ids);
        assert(!is_requested(names[names.len() - 1], ids));
    }
}

/// Replaces every occurrence of `from` in `s` by `to`.
pub fn replace_char(s: &str, from: char, to: &str) -> (r: String)
    ensures
        r@ == replaced(s@, from, to@),
{
    let n: usize = s.unicode_len();
    let mut out = String::new();
    let mut i: usize = 0;
    while i < n
        invariant
            n == s@.len(),
            i <= n,
            out@ == replaced(s@.take(i as int), from, to@),
        decreases n - i,
    {
        let c = s.get_char(i);
        proof {
            assert(s@.take(i + 1).drop_last() =~= s@.take(i as int));
            assert(s@.take(i + 1).last() == c);
        }
        if c == from {
            out.append(to);
        } else {
            let ghost before = out@;
            out.append(s.substring_char(i, i + 1));
            assert(out@ =~= before.push(c));
        }
        i += 1;
    }
    assert(s@.take(n as int) =~= s@);
    out
}

/// `str::to_lowercase`: the lowercase form of `s`, which depends on the text
/// of `s` alone.
#[verifier::external_body]
fn to_lowercase(s: &str) -> (r: String)
    ensures
        r@ == lowercase(s@),
{
    s.to_lowercase()
}

/// Puts the prefix of device ids before a normalized name.
pub fn with_prefix(normalized: &str) -> (id: String)
    ensures
        id@ == prefixed(normalized@),
{
    String::from_str("device_").concat(normalized)
}

/// Derives the id of the device named `name`: spaces become underscores, the
/// result is lowercased, and the prefix is put before it.
pub fn device_id(name: &str) -> (id: String)
    ensures
        id@ == device_id_of(name@),
{
    let spaced = replace_char(name, ' ', "_");
    let lowered = to_lowercase(spaced.as_str());
    with_prefix(lowered.as_str())
}

/// Whether `id` is one of `ids`.
pub fn contains_id(ids: &Vec<String>, id: &String) -> (found: bool)
    ensures
        found == id_views(ids@).contains(id@),
{
    let mut j: usize = 0;
    while j < ids.len()
        invariant
            j <= ids.len(),
            forall|k: int| 0 <= k < j ==> id_views(ids@)[k] != id@,
        decreases ids.len() - j,
    {
        if ids[j] == *id {
            assert(id_views(ids@)[j as int] == id@);
            return true;
        }
        j += 1;
    }
    false
}

/// Lists the host's devices in host order.
///
/// `names` holds the name of each device, `None` where the host could not
/// tell it; `default_name` is the name of the host's default device, if it has
/// one. The first name that could not be read fails the listing.
pub fn list_devices(names: &Vec<Option<String>>, default_name: &Option<String>) -> (r: Result<
    Vec<AudioOutputDevice>,
    DeviceQueryError,
>)
    ensures
        is_listing(names@, *default_name, r),
{
    let mut devices: Vec<AudioOutputDevice> = Vec::new();
    let mut i: usize = 0;
    while i < names.len()
        invariant
            i <= names@.len(),
            devices@.len() == i,
            forall|k: int| 0 <= k < i ==> (#[trigger] names@[k]) is Some,
            forall|k: int|
                0 <= k < i ==> (#[trigger] devices@[k])@ == listed(
                    names@[k]->Some_0@,
                    text_of(*default_name),
                ),
        decreases names.len() - i,
    {
        match &names[i] {
            None => {
                return Err(DeviceQueryError { index: i });
            },
            Some(name) => {
                let id = device_id(name.as_str());
                let is_default = match default_name {
                    Some(d) => *d == *name,
                    None => false,
                };
                devices.push(AudioOutputDevice { id, name: name.clone(), is_default });
            },
        }
        i += 1;
    }
    Ok(devices)
}

/// Finds the devices that `device_ids` asks for: their positions in `names`,
/// in host order. A device whose name could not be read is passed over.
pub fn resolve(names: &Vec<Option<String>>, device_ids: &Vec<String>) -> (matched: Vec<usize>)
    ensures
        matched@.map_values(|i: usize| i as nat) == requested(
            name_views(names@),
            id_views(device_ids@),
        ),
{
    let mut matched: Vec<usize> = Vec::new();
    let mut i: usize = 0;
    while i < names.len()
        invariant
            i <= names@.len(),
            matched@.map_values(|i: usize| i as nat) == requested(
                name_views(names@).take(i as int),
                id_views(device_ids@),
            ),
        decreases names.len() - i,
    {
        let ghost all = name_views(names@);
        assert(all.take(i + 1).drop_last() =~= all.take(i as int));
        assert(all.take(i + 1).last() == all[i as int]);
        let wanted = match &names[i] {
            Some(name) => {
                let id = device_id(name.as_str());
                contains_id(device_ids, &id)
            },
            None => false,
        };
        assert(wanted == is_requested(all[i as int], id_views(device_ids@)));
        if wanted {
            let ghost before = matched@.map_values(|i: usize| i as nat);
            matched.push(i);
            assert(matched@.map_values(|i: usize| i as nat) =~= before.push(i as nat));
        }
        i += 1;
    }
    assert(name_views(names@).take(names@.len() as int) =~= name_views(names@));
    matched
}

} // verus!
