//! The pattern by which hardware identifiers are read.
//!
//! An identifier names its vendor and product as `VID_` and `PID_`, each
//! followed by four hexadecimal digits, the two joined by `&` or `+`. A serial
//! number may follow, set off by a backslash or a `+`: a run of letters,
//! digits and underscores. The search for the pattern is the expression
//! engine's; what is made of the groups that it captures is decided here.

use crate::error::HidError;
use crate::hex::{
    ascii_upper, hex_digit, hex_ignores_case, hex_u16, hex_value, is_hex_token, parse_hex_u16,
};
use regex::Regex;
use vstd::prelude::*;

verus! {

/// `regex::Regex`, a compiled expression. Nothing inside it is visible here:
/// it is made by [`compile`] and handed to [`captures`].
#[verifier::external_type_specification]
#[verifier::external_body]
pub struct ExRegex(regex::Regex);

/// `regex::Error`, the engine's reason for refusing a pattern. It is carried
/// as far as [`IdPattern::new`], which answers with an error of this library.
#[verifier::external_type_specification]
#[verifier::external_body]
pub struct ExRegexError(regex::Error);

/// The pattern that a compiled expression searches for: for an expression
/// that `Regex::new` made, the text it was made from.
pub uninterp spec fn source_of(re: Regex) -> Seq<char>;

/// The leftmost match of `pattern` in `haystack`, as the texts of its capture
/// groups: `None` where the pattern matches nowhere; otherwise one entry for
/// each group of the pattern, the whole match first and then the groups in
/// the order of their opening brackets, `None` for a group that took no part
/// in the match.
pub uninterp spec fn captured_groups(pattern: Seq<char>, haystack: Seq<char>) -> Option<
    Seq<Option<Seq<char>>>,
>;

/// Whether the expression engine accepts `pattern`: the pattern is well
/// formed, and what it compiles to stays within the size that the engine
/// allows by default.
pub uninterp spec fn accepted(pattern: Seq<char>) -> bool;

/// `Regex::new` of the regex crate. Believed of it: whether it accepts a
/// pattern depends on the pattern alone, and an expression that it hands
/// out searches for the pattern that it was given.
#[verifier::external_body]
fn compile(pattern: &str) -> (r: Result<Regex, regex::Error>)
    ensures
        r is Ok <==> accepted(pattern@),
        r matches Ok(re) ==> source_of(re) == pattern@,
{
    Regex::new(pattern)
}

/// `Regex::captures` of the regex crate, with each group's text copied out
/// of the haystack. Believed of it: what it finds depends on the pattern and
/// the haystack alone.
#[verifier::external_body]
fn captures(re: &Regex, haystack: &str) -> (r: Option<Vec<Option<String>>>)
    ensures
        r.deep_view() == captured_groups(source_of(*re), haystack@),
{
    re.captures(haystack).map(
        |found| found.iter().map(|group| group.map(|m| m.as_str().to_string())).collect(),
    )
}

/// The pattern of a hardware identifier. Its groups are, in order: the whole
/// match, the vendor token, the product token, the separator with the serial
/// number, and the serial number.
pub const ID_PATTERN: &'static str =
    r"VID_(?P<vid>[[:xdigit:]]{4})[&+]PID_(?P<pid>[[:xdigit:]]{4})([\\+](?P<serial>\w+))?";

/// The index of the vendor token among the groups of [`ID_PATTERN`].
pub const VENDOR_GROUP: usize = 1;

/// The index of the product token among the groups of [`ID_PATTERN`].
pub const PRODUCT_GROUP: usize = 2;

/// The index of the serial number among the groups of [`ID_PATTERN`].
pub const SERIAL_GROUP: usize = 4;

/// What an identifier says of its device.
#[derive(Debug, Clone, PartialEq, Eq)]
pub struct DeviceIds {
    pub vendor_id: u16,
    pub product_id: u16,
    pub serial: Option<String>,
}

/// A [`DeviceIds`] as a mathematical value.
pub struct DeviceIdsView {
    pub vendor_id: u16,
    pub product_id: u16,
    pub serial: Option<Seq<char>>,
}

impl View for DeviceIds {
    type V = DeviceIdsView;

    open spec fn view(&self) -> DeviceIdsView {
        DeviceIdsView {
            vendor_id: self.vendor_id,
            product_id: self.product_id,
            serial: self.serial.deep_view(),
        }
    }
}

impl DeepView for DeviceIds {
    type V = DeviceIdsView;

    open spec fn deep_view(&self) -> DeviceIdsView {
        self@
    }
}

/// The group at `index`, where there is one and it took part in the match.
pub open spec fn group_at(groups: Seq<Option<Seq<char>>>, index: int) -> Option<Seq<char>> {
    if 0 <= index < groups.len() {
        groups[index]
    } else {
        None
    }
}

/// What the groups of a match say of the device: the values of the vendor and
/// product tokens, and the serial number if its group took part. Nothing
/// where either token is missing or is no sixteen-bit hexadecimal number.
pub open spec fn ids_of_groups(groups: Seq<Option<Seq<char>>>) -> Option<DeviceIdsView> {
    match (group_at(groups, VENDOR_GROUP as int), group_at(groups, PRODUCT_GROUP as int)) {
        (Some(vendor), Some(product)) => match (hex_u16(vendor), hex_u16(product)) {
            (Some(vendor_id), Some(product_id)) => Some(
                DeviceIdsView {
                    vendor_id,
                    product_id,
                    serial: group_at(groups, SERIAL_GROUP as int),
                },
            ),
            _ => None,
        },
        _ => None,
    }
}

/// What an identifier says of its device: nothing where the pattern matches
/// nowhere in it, else what the groups of the leftmost match say.
pub open spec fn parse_id(id: Seq<char>) -> Option<DeviceIdsView> {
    match captured_groups(ID_PATTERN@, id) {
        Some(groups) => ids_of_groups(groups),
        None => None,
    }
}

/// A token as the pattern captures it for a vendor or a product: four
/// hexadecimal digits.
pub open spec fn is_id_token(token: Seq<char>) -> bool {
    token.len() == 4 && is_hex_token(token)
}

/// Four hexadecimal digits always fit sixteen bits.
pub proof fn id_token_fits(token: Seq<char>)
    requires
        is_id_token(token),
    ensures
        hex_value(token) <= 0xffff,
        hex_u16(token) == Some(hex_value(token) as u16),
{
    let t3 = token.drop_last();
    let t2 = t3.drop_last();
    let t1 = t2.drop_last();
    let t0 = t1.drop_last();
    assert(hex_digit(token[3]) is Some);
    assert(hex_digit(token[2]) is Some);
    assert(hex_digit(token[1]) is Some);
    assert(hex_digit(token[0]) is Some);
    assert(t0.len() == 0);
    assert(hex_value(t0) == 0);
    assert(hex_value(t1) <= 15);
    assert(hex_value(t2) <= 255);
    assert(hex_value(t3) <= 4095);
}

/// Where the pattern matches an identifier, with four hexadecimal digits
/// captured for the vendor and four for the product, the identifier is read,
/// and the ids are the values of the captured digits in base sixteen,
/// whatever the case of their letters. The serial number is the text of the
/// serial group.
pub proof fn parse_reads_captured_digits(
    id: Seq<char>,
    groups: Seq<Option<Seq<char>>>,
    vendor: Seq<char>,
    product: Seq<char>,
)
    requires
        captured_groups(ID_PATTERN@, id) == Some(groups),
        group_at(groups, VENDOR_GROUP as int) == Some(vendor),
        group_at(groups, PRODUCT_GROUP as int) == Some(product),
        is_id_token(vendor),
        is_id_token(product),
    ensures
        parse_id(id) matches Some(ids) && ids.vendor_id == hex_value(vendor) && ids.product_id
            == hex_value(product) && ids.vendor_id == hex_value(
            vendor.map_values(|c: char| ascii_upper(c)),
        ) && ids.product_id == hex_value(product.map_values(|c: char| ascii_upper(c)))
            && ids.serial == group_at(groups, SERIAL_GROUP as int),
{
    id_token_fits(vendor);
    id_token_fits(product);
    hex_ignores_case(vendor);
    hex_ignores_case(product);
}

/// An identifier that the pattern matches without a serial number is read
/// as a device that has none: the missing group is no failure.
pub proof fn parse_without_serial(id: Seq<char>, groups: Seq<Option<Seq<char>>>)
    requires
        captured_groups(ID_PATTERN@, id) == Some(groups),
        group_at(groups, VENDOR_GROUP as int) matches Some(vendor) && is_id_token(vendor),
        group_at(groups, PRODUCT_GROUP as int) matches Some(product) && is_id_token(product),
        group_at(groups, SERIAL_GROUP as int) is None,
    ensures
        parse_id(id) matches Some(ids) && ids.serial is None,
{
    id_token_fits(group_at(groups, VENDOR_GROUP as int)->0);
    id_token_fits(group_at(groups, PRODUCT_GROUP as int)->0);
}

/// Copies the text of the group at `index`.
fn group_text(groups: &Vec<Option<String>>, index: usize) -> (r: Option<String>)
    ensures
        r.deep_view() == group_at(groups.deep_view(), index as int),
{
    if index < groups.len() {
        match &groups[index] {
            Some(text) => Some(text.clone()),
            None => None,
        }
    } else {
        None
    }
}

/// Reads vendor id, product id and serial number off the groups of a match.
/// A match whose vendor or product token is missing, or is no hexadecimal
/// number of sixteen bits, counts as no match. A missing serial group
/// gives a device without a serial number.
pub fn ids_from_groups(groups: &Vec<Option<String>>) -> (r: Option<DeviceIds>)
    ensures
        r.deep_view() == ids_of_groups(groups.deep_view()),
{
    let vendor = match group_text(groups, VENDOR_GROUP) {
        Some(token) => token,
        None => {
            return None;
        },
    };
    let product = match group_text(groups, PRODUCT_GROUP) {
        Some(token) => token,
        None => {
            return None;
        },
    };
    let vendor_id = match parse_hex_u16(vendor.as_str()) {
        Some(value) => value,
        None => {
            return None;
        },
    };
    let product_id = match parse_hex_u16(product.as_str()) {
        Some(value) => value,
        None => {
            return None;
        },
    };
    Some(DeviceIds { vendor_id, product_id, serial: group_text(groups, SERIAL_GROUP) })
}

/// The compiled pattern of hardware identifiers.
pub struct IdPattern {
    re: Regex,
}

impl IdPattern {
    #[verifier::type_invariant]
    spec fn searches_for_ids(self) -> bool {
        source_of(self.re) == ID_PATTERN@
    }

    /// Compiles [`ID_PATTERN`]. Succeeds exactly where the expression
    /// engine accepts the pattern, and fails with [`HidError::Pattern`]
    /// where it does not.
    pub fn new() -> (r: Result<IdPattern, HidError>)
        ensures
            r is Ok <==> accepted(ID_PATTERN@),
            r matches Err(e) ==> e == HidError::Pattern,
    {
        match compile(ID_PATTERN) {
            Ok(re) => Ok(IdPattern { re }),
            Err(_) => Err(HidError::Pattern),
        }
    }

    /// Reads an identifier. Gives `None` where the pattern matches nowhere in
    /// it; an identifier without a serial number gives ids without one.
    pub fn parse(&self, id: &str) -> (r: Option<DeviceIds>)
        ensures
            r.deep_view() == parse_id(id@),
    {
        proof {
            use_type_invariant(self);
        }
        match captures(&self.re, id) {
            Some(groups) => ids_from_groups(&groups),
            None => None,
        }
    }
}

} // verus!
