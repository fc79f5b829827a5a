//! The two plain listings: the interfaces of the machine and the networks
//! already known. Each line names one entry by its first field.

use crate::text::{first_at, lines_of, split_lines, string_of, to_chars, views_of, lemma_first_at};
use vstd::prelude::*;
use vstd::slice::slice_subrange;

verus! {

/// The separator of the interface listing.
pub const DEVICE_SEPARATOR: char = ':';

/// The separator of the listing of known networks.
pub const KNOWN_SEPARATOR: char = ';';

/// A network interface, and whether it is to be connected.
#[derive(Clone, Debug, PartialEq, Eq)]
pub struct Device {
    pub device: String,
    pub status: bool,
}

/// The mathematical value of a [`Device`].
pub struct DeviceView {
    pub device: Seq<char>,
    pub status: bool,
}

impl View for Device {
    type V = DeviceView;

    open spec fn view(&self) -> DeviceView {
        DeviceView { device: self.device@, status: self.status }
    }
}

/// The views of a sequence of interfaces.
pub open spec fn device_views(devices: Seq<Device>) -> Seq<DeviceView> {
    Seq::new(devices.len(), |i: int| devices[i]@)
}

/// The views of a sequence of strings.
pub open spec fn string_views(strings: Seq<String>) -> Seq<Seq<char>> {
    Seq::new(strings.len(), |i: int| strings[i]@)
}

/// The first field of `line`: what stands before its first `sep`, or the
/// whole line where it holds none.
pub open spec fn head_field(line: Seq<char>, sep: char) -> Seq<char> {
    line.take(first_at(line, sep) as int)
}

/// The first field of each line of `text`.
pub open spec fn head_fields(text: Seq<char>, sep: char) -> Seq<Seq<char>> {
    let lines = lines_of(text);
    Seq::new(lines.len(), |i: int| head_field(lines[i], sep))
}

/// The interfaces that a listing names, one for each line, each to be
/// connected.
pub open spec fn listed_devices(text: Seq<char>) -> Seq<DeviceView> {
    let names = head_fields(text, DEVICE_SEPARATOR);
    Seq::new(names.len(), |i: int| DeviceView { device: names[i], status: true })
}

/// The names that a listing of known networks holds, one for each line.
pub open spec fn listed_names(text: Seq<char>) -> Seq<Seq<char>> {
    head_fields(text, KNOWN_SEPARATOR)
}

/// The first field of a line.
pub fn head_of(line: &[char], sep: char) -> (field: String)
    ensures
        field@ == head_field(line@, sep),
{
    let mut i: usize = 0;
    while i < line.len() && line[i] != sep
        invariant
            i <= line.len(),
            forall|k: int| 0 <= k < i ==> line@[k] != sep,
        decreases line.len() - i,
    {
        i += 1;
    }
    proof {
        lemma_first_at(line@, sep, i as int);
    }
    string_of(slice_subrange(line, 0, i))
}

/// The first field of each line of a listing.
pub fn head_of_lines(text: &str, sep: char) -> (fields: Vec<String>)
    ensures
        string_views(fields@) == head_fields(text@, sep),
{
    let chars = to_chars(text);
    let lines = split_lines(chars.as_slice());
    let ghost all = lines_of(text@);
    let mut fields: Vec<String> = Vec::new();
    let mut i: usize = 0;
    while i < lines.len()
        invariant
            i <= lines.len(),
            views_of(lines@) == all,
            all == lines_of(text@),
            string_views(fields@) == head_fields(text@, sep).take(i as int),
        decreases lines.len() - i,
    {
        let field = head_of(lines[i].as_slice(), sep);
        fields.push(field);
        proof {
            assert(head_fields(text@, sep).take(i + 1) =~= head_fields(text@, sep).take(
                i as int,
            ).push(head_field(all[i as int], sep)));
        }
        i += 1;
    }
    fields
}

/// Reads the listing of the interfaces.
pub fn parse_devices(text: &str) -> (devices: Vec<Device>)
    ensures
        device_views(devices@) == listed_devices(text@),
{
    let names = head_of_lines(text, DEVICE_SEPARATOR);
    let ghost all = string_views(names@);
    let mut devices: Vec<Device> = Vec::new();
    let mut i: usize = 0;
    while i < names.len()
        invariant
            i <= names.len(),
            string_views(names@) == all,
            all == head_fields(text@, DEVICE_SEPARATOR),
            device_views(devices@) == listed_devices(text@).take(i as int),
        decreases names.len() - i,
    {
        let device = Device { device: names[i].clone(), status: true };
        devices.push(device);
        proof {
            assert(listed_devices(text@).take(i + 1) =~= listed_devices(text@).take(i as int).push(
                listed_devices(text@)[i as int],
            ));
        }
        i += 1;
    }
    devices
}

/// Reads the listing of the known networks.
pub fn parse_known(text: &str) -> (names: Vec<String>)
    ensures
        string_views(names@) == listed_names(text@),
{
    head_of_lines(text, KNOWN_SEPARATOR)
}

} // verus!
