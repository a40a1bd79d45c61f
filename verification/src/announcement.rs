//! Reading the announcement that a printer broadcasts.
//!
//! An announcement is a text. Its first line that holds more than white space
//! is a fixed header; every later line of the form `token: value` sets the
//! field that the token names, a later line overriding an earlier one. Lines
//! without a colon and tokens that name no field are passed over. To be
//! accepted, an announcement gives an address, the vendor's device type and a
//! name.

use vstd::prelude::*;
use vstd::utf8::{decode_utf8, valid_utf8};
use crate::address::{address_of, lemma_dotted_quad_is_kept, DeviceAddress};
use crate::network_printer::NetworkPrinterManufacturer;
use crate::text::{
    chars_of, content_lines, content_lines_of, copy_range, decode_lossy, find_from, index_of,
    lossy_text, rows, same_text, seen, string_of, text_of, trim, trim_bounds,
};

verus! {

/// The identity that a printer announces.
#[derive(Debug, PartialEq, Eq)]
pub struct DeviceAnnouncement {
    pub urn: Option<String>,
    pub model_code: Option<String>,
    pub name: Option<String>,
    pub address: DeviceAddress,
    pub serial: Option<String>,
    pub port: Option<u16>,
}

/// A `DeviceAnnouncement` as a mathematical value.
pub struct AnnouncementView {
    pub urn: Option<Seq<char>>,
    pub model_code: Option<Seq<char>>,
    pub name: Option<Seq<char>>,
    pub address: DeviceAddress,
    pub serial: Option<Seq<char>>,
    pub port: Option<u16>,
}

impl View for DeviceAnnouncement {
    type V = AnnouncementView;

    open spec fn view(&self) -> AnnouncementView {
        AnnouncementView {
            urn: text_of(self.urn),
            model_code: text_of(self.model_code),
            name: text_of(self.name),
            address: self.address,
            serial: text_of(self.serial),
            port: self.port,
        }
    }
}

/// Why a datagram is no announcement of a printer of this vendor.
#[derive(Clone, Copy, Debug, PartialEq, Eq, Structural)]
pub enum Rejection {
    /// The datagram holds nothing but white space.
    NoHeader,
    /// The first line is not the announcement header.
    NotNotify,
    /// A location is given that is no address.
    BadAddress,
    /// No location is given.
    NoAddress,
    /// The device type is missing or is not the vendor's.
    WrongUrn,
    /// No name is given.
    NoName,
}

/// The header that opens an announcement.
pub open spec fn header_text() -> Seq<char> {
    "NOTIFY * HTTP/1.1"@
}

/// The device type that the vendor's printers announce.
pub open spec fn urn_text() -> Seq<char> {
    "urn:bambulab-com:device:3dprinter:1"@
}

/// The token of the line that gives the address.
pub open spec fn location_token() -> Seq<char> {
    "Location"@
}

/// The token of the line that gives the model code.
pub open spec fn model_token() -> Seq<char> {
    "DevModel.bambu.com"@
}

/// The token of the line that gives the name.
pub open spec fn name_token() -> Seq<char> {
    "DevName.bambu.com"@
}

/// The token of the line that gives the serial number.
pub open spec fn serial_token() -> Seq<char> {
    "USN"@
}

/// The token of the line that gives the device type.
pub open spec fn type_token() -> Seq<char> {
    "NT"@
}

/// Whether a line holds a colon.
pub open spec fn has_separator(line: Seq<char>) -> bool {
    index_of(line, ':') < line.len()
}

/// What stands before the first colon of a line, trimmed.
pub open spec fn line_token(line: Seq<char>) -> Seq<char> {
    trim(line.take(index_of(line, ':') as int))
}

/// What stands after the first colon of a line, trimmed.
pub open spec fn line_value(line: Seq<char>) -> Seq<char> {
    trim(line.skip(index_of(line, ':') as int + 1))
}

/// Whether a line sets the field that `token` names.
pub open spec fn carries(line: Seq<char>, token: Seq<char>) -> bool {
    has_separator(line) && line_token(line) == token
}

/// The value of the field that `token` names: that of the last line that
/// carries the token, if any does.
pub open spec fn field(lines: Seq<Seq<char>>, token: Seq<char>) -> Option<Seq<char>>
    decreases lines.len(),
{
    if lines.len() == 0 {
        None
    } else if carries(lines.last(), token) {
        Some(line_value(lines.last()))
    } else {
        field(lines.drop_last(), token)
    }
}

/// Whether some line gives a location that is no address.
pub open spec fn bad_location(lines: Seq<Seq<char>>) -> bool {
    exists|i: int|
        0 <= i < lines.len() && carries(#[trigger] lines[i], location_token()) && address_of(
            line_value(lines[i]),
        ) is None
}

/// What an announcement text amounts to: the identity announced, or the
/// first reason to reject it.
pub open spec fn announcement_of(text: Seq<char>) -> Result<AnnouncementView, Rejection> {
    let lines = content_lines(text);
    if lines.len() == 0 {
        Err(Rejection::NoHeader)
    } else if lines[0] != header_text() {
        Err(Rejection::NotNotify)
    } else {
        let body = lines.skip(1);
        if bad_location(body) {
            Err(Rejection::BadAddress)
        } else if field(body, location_token()) is None {
            Err(Rejection::NoAddress)
        } else if field(body, type_token()) != Some(urn_text()) {
            Err(Rejection::WrongUrn)
        } else if field(body, name_token()) is None {
            Err(Rejection::NoName)
        } else {
            Ok(
                AnnouncementView {
                    urn: field(body, type_token()),
                    model_code: field(body, model_token()),
                    name: field(body, name_token()),
                    address: address_of(field(body, location_token()).unwrap()).unwrap(),
                    serial: field(body, serial_token()),
                    port: None,
                },
            )
        }
    }
}

/// Whether `r` is what reading `text` as an announcement gives.
pub open spec fn reads_as(
    r: Result<(DeviceAnnouncement, NetworkPrinterManufacturer), Rejection>,
    text: Seq<char>,
) -> bool {
    match r {
        Ok((announcement, manufacturer)) => announcement_of(text) == Ok::<
            AnnouncementView,
            Rejection,
        >(announcement@) && manufacturer == NetworkPrinterManufacturer::Bambu,
        Err(reason) => announcement_of(text) == Err::<AnnouncementView, Rejection>(reason),
    }
}

/// A field is set exactly when some line carries its token.
pub proof fn lemma_field_present(lines: Seq<Seq<char>>, token: Seq<char>)
    ensures
        field(lines, token) is Some <==> exists|i: int|
            0 <= i < lines.len() && carries(#[trigger] lines[i], token),
    decreases lines.len(),
{
    if lines.len() > 0 && carries(lines.last(), token) {
        assert(carries(lines[lines.len() - 1], token));
    } else if lines.len() > 0 {
        let front = lines.drop_last();
        lemma_field_present(front, token);
        if field(front, token) is Some {
            let i = choose|i: int| 0 <= i < front.len() && carries(#[trigger] front[i], token);
            assert(carries(lines[i], token));
        }
        if exists|i: int| 0 <= i < lines.len() && carries(#[trigger] lines[i], token) {
            let i = choose|i: int| 0 <= i < lines.len() && carries(#[trigger] lines[i], token);
            assert(carries(front[i], token));
        }
    }
}

/// A text whose first line with content is not the header is rejected, and
/// so is a text without any content.
pub proof fn lemma_rejects_without_header(text: Seq<char>)
    requires
        content_lines(text).len() == 0 || content_lines(text)[0] != header_text(),
    ensures
        announcement_of(text) is Err,
        content_lines(text).len() == 0 ==> announcement_of(text) == Err::<
            AnnouncementView,
            Rejection,
        >(Rejection::NoHeader),
        content_lines(text).len() > 0 ==> announcement_of(text) == Err::<
            AnnouncementView,
            Rejection,
        >(Rejection::NotNotify),
{
}

/// An announcement in which no line gives a location is rejected for want
/// of an address.
pub proof fn lemma_rejects_without_address(text: Seq<char>)
    requires
        content_lines(text).len() > 0,
        content_lines(text)[0] == header_text(),
        forall|i: int|
            1 <= i < content_lines(text).len() ==> !carries(
                #[trigger] content_lines(text)[i],
                location_token(),
            ),
    ensures
        announcement_of(text) == Err::<AnnouncementView, Rejection>(Rejection::NoAddress),
{
    let body = content_lines(text).skip(1);
    lemma_field_present(body, location_token());
    assert forall|i: int| 0 <= i < body.len() implies !carries(
        #[trigger] body[i],
        location_token(),
    ) by {
        assert(body[i] == content_lines(text)[i + 1]);
    }
}

/// An announcement whose device type is missing or is not the vendor's is
/// rejected; where its address is in order, for that reason.
pub proof fn lemma_rejects_other_device_type(text: Seq<char>)
    requires
        content_lines(text).len() > 0,
        content_lines(text)[0] == header_text(),
        field(content_lines(text).skip(1), type_token()) != Some(urn_text()),
    ensures
        announcement_of(text) is Err,
        !bad_location(content_lines(text).skip(1)) && field(
            content_lines(text).skip(1),
            location_token(),
        ) is Some ==> announcement_of(text) == Err::<AnnouncementView, Rejection>(
            Rejection::WrongUrn,
        ),
{
}

/// What is accepted gives an address, the vendor's device type and a name.
/// The address is the one that the location writes; where that is an IPv4
/// address, the location is its text.
pub proof fn lemma_accepted_is_complete(text: Seq<char>)
    requires
        announcement_of(text) is Ok,
    ensures
        announcement_of(text).unwrap().urn == Some(urn_text()),
        announcement_of(text).unwrap().name is Some,
        address_of(field(content_lines(text).skip(1), location_token()).unwrap()) == Some(
            announcement_of(text).unwrap().address,
        ),
        announcement_of(text).unwrap().address is V4 ==> announcement_of(
            text,
        ).unwrap().address.text() == field(content_lines(text).skip(1), location_token()).unwrap(),
{
    lemma_field_is_last(content_lines(text).skip(1), location_token());
    lemma_dotted_quad_is_kept(field(content_lines(text).skip(1), location_token()).unwrap());
}

/// The value of a field is that of a line that carries its token.
pub proof fn lemma_field_is_last(lines: Seq<Seq<char>>, token: Seq<char>)
    requires
        field(lines, token) is Some,
    ensures
        exists|i: int|
            0 <= i < lines.len() && carries(#[trigger] lines[i], token) && field(lines, token)
                == Some(line_value(lines[i])) && forall|j: int|
                i < j < lines.len() ==> !carries(#[trigger] lines[j], token),
    decreases lines.len(),
{
    if carries(lines.last(), token) {
        assert(carries(lines[lines.len() - 1], token));
    } else {
        let front = lines.drop_last();
        lemma_field_is_last(front, token);
        let i = choose|i: int|
            0 <= i < front.len() && carries(#[trigger] front[i], token) && field(front, token)
                == Some(line_value(front[i])) && forall|j: int|
                i < j < front.len() ==> !carries(#[trigger] front[j], token);
        assert(lines[i] == front[i]);
        assert forall|j: int| i < j < lines.len() implies !carries(#[trigger] lines[j], token) by {
            if j < front.len() {
                assert(lines[j] == front[j]);
            }
        }
    }
}

fn optional_string(chars: Option<Vec<char>>) -> (s: Option<String>)
    ensures
        text_of(s) == seen(chars),
{
    match chars {
        Some(v) => Some(string_of(v.as_slice())),
        None => None,
    }
}

/// The field that a line sets, if it sets the one that `token` names.
fn value_for(line: &[char], colon: usize, token: &str) -> (v: Option<Vec<char>>)
    requires
        colon == index_of(line@, ':'),
        colon < line.len(),
    ensures
        match v {
            Some(value) => carries(line@, token@) && value@ == line_value(line@),
            None => !carries(line@, token@),
        },
{
    let (i, j) = trim_bounds(line, 0, colon);
    let found = copy_range(line, i, j);
    let wanted = chars_of(token);
    if same_text(found.as_slice(), wanted.as_slice()) {
        let (i, j) = trim_bounds(line, colon + 1, line.len());
        Some(copy_range(line, i, j))
    } else {
        None
    }
}

/// Reads an announcement from its text.
pub fn parse_text(text: &str) -> (r: Result<
    (DeviceAnnouncement, NetworkPrinterManufacturer),
    Rejection,
>)
    ensures
        reads_as(r, text@),
{
    let chars = chars_of(text);
    let lines = content_lines_of(chars.as_slice());
    if lines.len() == 0 {
        return Err(Rejection::NoHeader);
    }
    if !same_text(lines[0].as_slice(), chars_of("NOTIFY * HTTP/1.1").as_slice()) {
        return Err(Rejection::NotNotify);
    }
    let ghost body = rows(lines@).skip(1);
    let mut urn: Option<Vec<char>> = None;
    let mut model_code: Option<Vec<char>> = None;
    let mut name: Option<Vec<char>> = None;
    let mut serial: Option<Vec<char>> = None;
    let mut location: Option<Vec<char>> = None;
    let mut address: Option<DeviceAddress> = None;
    let mut k: usize = 1;
    while k < lines.len()
        invariant
            1 <= k <= lines.len(),
            rows(lines@) == content_lines(text@),
            rows(lines@)[0] == header_text(),
            body == rows(lines@).skip(1),
            forall|i: int|
                0 <= i < k - 1 && carries(#[trigger] body[i], location_token()) ==> address_of(
                    line_value(body[i]),
                ) is Some,
            seen(urn) == field(body.take(k - 1), type_token()),
            seen(model_code) == field(body.take(k - 1), model_token()),
            seen(name) == field(body.take(k - 1), name_token()),
            seen(serial) == field(body.take(k - 1), serial_token()),
            seen(location) == field(body.take(k - 1), location_token()),
            location matches Some(l) ==> address_of(l@) == address,
            location is Some <==> address is Some,
        decreases lines.len() - k,
    {
        let line = lines[k].as_slice();
        assert(body[k - 1] == line@);
        assert(body.take(k as int).drop_last() == body.take(k - 1));
        assert(line@.skip(0) == line@);
        let colon = find_from(line, 0, ':');
        if colon < line.len() {
            if let Some(value) = value_for(line, colon, "NT") {
                urn = Some(value);
            }
            if let Some(value) = value_for(line, colon, "DevModel.bambu.com") {
                model_code = Some(value);
            }
            if let Some(value) = value_for(line, colon, "DevName.bambu.com") {
                name = Some(value);
            }
            if let Some(value) = value_for(line, colon, "USN") {
                serial = Some(value);
            }
            if let Some(value) = value_for(line, colon, "Location") {
                let parsed = DeviceAddress::parse(value.as_slice());
                if parsed.is_none() {
                    return Err(Rejection::BadAddress);
                }
                address = parsed;
                location = Some(value);
            }
        }
        k += 1;
    }
    assert(body.take(k - 1) == body);
    let address = match address {
        Some(address) => address,
        None => { return Err(Rejection::NoAddress); },
    };
    let urn_matches = match &urn {
        Some(u) => same_text(
            u.as_slice(),
            chars_of("urn:bambulab-com:device:3dprinter:1").as_slice(),
        ),
        None => false,
    };
    if !urn_matches {
        return Err(Rejection::WrongUrn);
    }
    if name.is_none() {
        return Err(Rejection::NoName);
    }
    let announcement = DeviceAnnouncement {
        urn: optional_string(urn),
        model_code: optional_string(model_code),
        name: optional_string(name),
        address,
        serial: optional_string(serial),
        port: None,
    };
    Ok((announcement, NetworkPrinterManufacturer::Bambu))
}

/// Reads an announcement from a datagram. The bytes are decoded as UTF-8,
/// ill-formed parts replaced, and the text is read as `parse_text` reads it.
/// Of a datagram that is well-formed UTF-8 the text is the one it encodes.
pub fn parse_announcement(datagram: &[u8]) -> (r: Result<
    (DeviceAnnouncement, NetworkPrinterManufacturer),
    Rejection,
>)
    ensures
        reads_as(r, lossy_text(datagram@)),
        valid_utf8(datagram@) ==> reads_as(r, decode_utf8(datagram@)),
{
    let text = decode_lossy(datagram);
    parse_text(text.as_str())
}

} // verus!
