//! One line of the scan listing, read into a wireless network.
//!
//! A line holds nine fields, separated by colons: the association marker, the
//! hardware address, the network name, the mode, the channel, the rate, the
//! signal strength, the signal bars and the security. Colons inside a field
//! are escaped; only the hardware address gets them back. Further fields are
//! ignored.

use crate::escape::{
    escape_colons, lemma_escape_round_trip, lemma_mask_after_escaped, lemma_masked_escape,
    mask_chars, mask_colons, mask_escapes, unmask, unmask_chars, PLACEHOLDER,
};
use crate::number::{decimal_u8, parse_u8};
use crate::text::{free_of, join, lemma_split_join, split, split_chars, string_of, to_chars};
use vstd::prelude::*;
use vstd::string::StringExecFns;

verus! {

/// What is added to the name of the network that the interface is joined to.
pub const CURRENT_SUFFIX: &'static str = " (*)";

/// The marker field of the line that describes the joined network.
pub open spec fn association_marker() -> Seq<char> {
    seq!['*']
}

/// A wireless network in range.
#[derive(Clone, Debug, PartialEq, Eq)]
pub struct Wifi {
    /// The place of the network in the scan that found it, from 0.
    pub id: usize,
    /// The hardware address of the access point.
    pub bssid: String,
    /// The name of the network, never empty, with [`CURRENT_SUFFIX`] at its
    /// end where the interface is joined to it.
    pub ssid: String,
    pub mode: String,
    pub channel: u8,
    pub rate: String,
    /// The signal strength, as the listing gives it.
    pub signal: u8,
    /// The signal strength drawn as bars.
    pub bars: String,
    pub security: String,
}

/// The mathematical value of a [`Wifi`].
pub struct WifiView {
    pub id: nat,
    pub bssid: Seq<char>,
    pub ssid: Seq<char>,
    pub mode: Seq<char>,
    pub channel: u8,
    pub rate: Seq<char>,
    pub signal: u8,
    pub bars: Seq<char>,
    pub security: Seq<char>,
}

impl View for Wifi {
    type V = WifiView;

    open spec fn view(&self) -> WifiView {
        WifiView {
            id: self.id as nat,
            bssid: self.bssid@,
            ssid: self.ssid@,
            mode: self.mode@,
            channel: self.channel,
            rate: self.rate@,
            signal: self.signal,
            bars: self.bars@,
            security: self.security@,
        }
    }
}

/// Why a line cannot be read.
#[derive(Clone, Copy, Debug, PartialEq, Eq)]
pub enum ParseError {
    /// The line ends before its ninth field.
    MissingField,
    /// The channel is no decimal number of at most 255.
    BadChannel,
    /// The signal strength is no decimal number of at most 255.
    BadSignal,
}

/// What a line of the listing amounts to.
pub enum LineOutcome {
    /// The line describes this network.
    Record(WifiView),
    /// The line names no network: its name field is empty.
    Hidden,
    /// The line cannot be read.
    Malformed(ParseError),
}

/// The fields of a line: its escaped colons masked, then split at the colons
/// that are left.
pub open spec fn fields_of(line: Seq<char>) -> Seq<Seq<char>> {
    split(mask_escapes(line), ':')
}

/// The name under which a network is stored: the name field, followed by
/// [`CURRENT_SUFFIX`] where the marker field is the association marker.
pub open spec fn stored_name(marker: Seq<char>, name: Seq<char>) -> Seq<char> {
    if marker == association_marker() {
        name + CURRENT_SUFFIX@
    } else {
        name
    }
}

/// What `line` amounts to, read as the network with the identifier `id`.
///
/// The fields are taken in their order and the first fault decides. A line
/// with an empty name field is hidden whatever follows the name, so it is
/// never malformed on account of a later field.
pub open spec fn line_outcome(line: Seq<char>, id: nat) -> LineOutcome {
    let f = fields_of(line);
    if f.len() < 3 {
        LineOutcome::Malformed(ParseError::MissingField)
    } else if f[2].len() == 0 {
        LineOutcome::Hidden
    } else if f.len() < 5 {
        LineOutcome::Malformed(ParseError::MissingField)
    } else if decimal_u8(f[4]) is None {
        LineOutcome::Malformed(ParseError::BadChannel)
    } else if f.len() < 7 {
        LineOutcome::Malformed(ParseError::MissingField)
    } else if decimal_u8(f[6]) is None {
        LineOutcome::Malformed(ParseError::BadSignal)
    } else if f.len() < 9 {
        LineOutcome::Malformed(ParseError::MissingField)
    } else {
        LineOutcome::Record(
            WifiView {
                id,
                bssid: unmask(f[1]),
                ssid: stored_name(f[0], f[2]),
                mode: f[3],
                channel: decimal_u8(f[4])->0,
                rate: f[5],
                signal: decimal_u8(f[6])->0,
                bars: f[7],
                security: f[8],
            },
        )
    }
}

/// A line with an empty name field is hidden, whatever its other fields hold.
pub proof fn lemma_empty_name_is_hidden(line: Seq<char>, id: nat)
    requires
        fields_of(line).len() >= 3,
        fields_of(line)[2].len() == 0,
    ensures
        line_outcome(line, id) is Hidden,
{
}

/// A network is stored under its name followed by the suffix where its line
/// bears the association marker, and under its name alone where the marker
/// field holds anything else. The suffix is not empty, so the two differ.
pub proof fn lemma_marker_decorates(line: Seq<char>, id: nat)
    requires
        line_outcome(line, id) is Record,
    ensures
        fields_of(line)[0] == association_marker() ==> (line_outcome(line, id)->Record_0).ssid
            == fields_of(line)[2] + CURRENT_SUFFIX@,
        fields_of(line)[0] != association_marker() ==> (line_outcome(line, id)->Record_0).ssid
            == fields_of(line)[2],
        CURRENT_SUFFIX@ == seq![' ', '(', '*', ')'],
        fields_of(line)[2] + CURRENT_SUFFIX@ != fields_of(line)[2],
        (line_outcome(line, id)->Record_0).ssid.len() > 0,
{
    reveal_strlit(" (*)");
}

/// The fields as the listing writes them: each with its colons escaped.
pub open spec fn written_fields(fields: Seq<Seq<char>>) -> Seq<Seq<char>> {
    Seq::new(fields.len(), |i: int| escape_colons(fields[i]))
}

/// The line that the listing writes for the fields.
pub open spec fn written_line(fields: Seq<Seq<char>>) -> Seq<char> {
    join(written_fields(fields), ':')
}

/// The fields as they are read back from the line written for them: each
/// with the placeholder in the place of its colons.
pub open spec fn read_fields(fields: Seq<Seq<char>>) -> Seq<Seq<char>> {
    Seq::new(fields.len(), |i: int| mask_colons(fields[i]))
}

/// Masking the line written for some fields masks each field and keeps the
/// separators, where no field holds a backslash.
pub proof fn lemma_mask_written_line(fields: Seq<Seq<char>>)
    requires
        fields.len() >= 1,
        forall|i: int| 0 <= i < fields.len() ==> free_of(#[trigger] fields[i], '\\'),
    ensures
        mask_escapes(written_line(fields)) == join(read_fields(fields), ':'),
    decreases fields.len(),
{
    lemma_masked_escape(fields[0]);
    if fields.len() > 1 {
        let tail = fields.drop_first();
        let after = seq![':'] + written_line(tail);
        lemma_mask_written_line(tail);
        lemma_mask_after_escaped(fields[0], after);
        assert(written_fields(fields).drop_first() =~= written_fields(tail));
        assert(read_fields(fields).drop_first() =~= read_fields(tail));
        assert(written_line(fields) =~= escape_colons(fields[0]) + after);
        assert(after.skip(1) =~= written_line(tail));
    }
}

/// The line written for some fields is read back as those fields, each with
/// the placeholder in the place of its colons, where no field holds a
/// backslash.
pub proof fn lemma_fields_of_written_line(fields: Seq<Seq<char>>)
    requires
        fields.len() >= 1,
        forall|i: int| 0 <= i < fields.len() ==> free_of(#[trigger] fields[i], '\\'),
    ensures
        fields_of(written_line(fields)) == read_fields(fields),
{
    lemma_mask_written_line(fields);
    let read = read_fields(fields);
    assert forall|i: int| 0 <= i < read.len() implies free_of(#[trigger] read[i], ':') by {
        lemma_masked_escape(fields[i]);
    }
    lemma_split_join(read, ':');
}

/// A line written for nine fields is read back as the network that the
/// fields describe, and the hardware address comes back with its colons.
///
/// This holds where no field holds a backslash, the hardware address holds
/// no placeholder, no other field holds a colon, the name is not empty, and
/// the channel and the signal strength are decimal numbers of at most 255.
pub proof fn lemma_line_round_trip(fields: Seq<Seq<char>>, id: nat)
    requires
        fields.len() == 9,
        forall|i: int| 0 <= i < 9 ==> free_of(#[trigger] fields[i], '\\'),
        forall|i: int| 0 <= i < 9 && i != 1 ==> free_of(#[trigger] fields[i], ':'),
        free_of(fields[1], PLACEHOLDER),
        fields[2].len() > 0,
        decimal_u8(fields[4]) is Some,
        decimal_u8(fields[6]) is Some,
    ensures
        line_outcome(written_line(fields), id) == LineOutcome::Record(
            WifiView {
                id,
                bssid: fields[1],
                ssid: stored_name(fields[0], fields[2]),
                mode: fields[3],
                channel: decimal_u8(fields[4])->0,
                rate: fields[5],
                signal: decimal_u8(fields[6])->0,
                bars: fields[7],
                security: fields[8],
            },
        ),
{
    lemma_fields_of_written_line(fields);
    assert forall|i: int| 0 <= i < 9 && i != 1 implies #[trigger] read_fields(fields)[i]
        == fields[i] by {
        lemma_masked_escape(fields[i]);
    }
    lemma_masked_escape(fields[1]);
    lemma_escape_round_trip(fields[1]);
}

/// Reads one line of the listing as the network with the identifier `id`:
/// the network, `None` for a line with an empty name, or the fault.
pub fn parse_line(line: &str, id: usize) -> (result: Result<Option<Wifi>, ParseError>)
    ensures
        match line_outcome(line@, id as nat) {
            LineOutcome::Record(wifi) => result matches Ok(Some(found)) && found@ == wifi,
            LineOutcome::Hidden => result matches Ok(None),
            LineOutcome::Malformed(fault) => result matches Err(error) && error == fault,
        },
{
    let chars = to_chars(line);
    parse_record(chars.as_slice(), id)
}

/// [`parse_line`] on the characters of a line.
pub fn parse_record(line: &[char], id: usize) -> (result: Result<Option<Wifi>, ParseError>)
    ensures
        match line_outcome(line@, id as nat) {
            LineOutcome::Record(wifi) => result matches Ok(Some(found)) && found@ == wifi,
            LineOutcome::Hidden => result matches Ok(None),
            LineOutcome::Malformed(fault) => result matches Err(error) && error == fault,
        },
{
    let masked = mask_chars(line);
    let fields = split_chars(masked.as_slice(), ':');
    let count = fields.len();
    if count < 3 {
        return Err(ParseError::MissingField);
    }
    if fields[2].len() == 0 {
        return Ok(None);
    }
    if count < 5 {
        return Err(ParseError::MissingField);
    }
    let channel = match parse_u8(fields[4].as_slice()) {
        Some(channel) => channel,
        None => {
            return Err(ParseError::BadChannel);
        },
    };
    if count < 7 {
        return Err(ParseError::MissingField);
    }
    let signal = match parse_u8(fields[6].as_slice()) {
        Some(signal) => signal,
        None => {
            return Err(ParseError::BadSignal);
        },
    };
    if count < 9 {
        return Err(ParseError::MissingField);
    }
    let bssid = unmask_chars(fields[1].as_slice());
    let mut ssid = string_of(fields[2].as_slice());
    if fields[0].len() == 1 && fields[0][0] == '*' {
        assert(fields[0]@ =~= association_marker());
        ssid.append(CURRENT_SUFFIX);
    }
    let wifi = Wifi {
        id,
        bssid: string_of(bssid.as_slice()),
        ssid,
        mode: string_of(fields[3].as_slice()),
        channel,
        rate: string_of(fields[5].as_slice()),
        signal,
        bars: string_of(fields[7].as_slice()),
        security: string_of(fields[8].as_slice()),
    };
    Ok(Some(wifi))
}

} // verus!
