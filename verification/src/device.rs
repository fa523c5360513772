//! One enumerated device, as the platform described it.
//!
//! A [`HidDevice`] keeps each answer of the platform as it came: whether the
//! call succeeded, the error code if it did not, and the buffer. The methods
//! decide what the answers mean. A buffer is decoded only where the call
//! that filled it is known to have filled it.

use crate::buffer::{
    ascii_chars, decode_text, holds_ascii_text, terminated_ascii_text, text_of,
};
use vstd::prelude::*;

verus! {

/// The capacity in bytes of the buffers that identifiers and registry
/// properties are read into: the longest path of the platform.
pub const MAX_PATH: usize = 260;

/// The error code of a call that failed only because its buffer was too
/// small.
pub const ERROR_INSUFFICIENT_BUFFER: u32 = 122;

/// The code of the registry property that lists a device's hardware ids.
pub const SPDRP_HARDWAREID: u32 = 1;

/// The code of the registry property that holds a device's friendly name.
pub const SPDRP_FRIENDLYNAME: u32 = 12;

/// What the platform answered to one call: whether the call succeeded, the
/// error code that it left where it did not, the number that it reported (an
/// instance handle, a size), and the buffer that it was given to fill.
#[derive(Debug, Clone, PartialEq, Eq)]
pub struct Reply {
    pub ok: bool,
    pub error: u32,
    pub value: u32,
    pub buffer: Vec<u8>,
}

/// A [`Reply`] as a mathematical value.
pub struct ReplyView {
    pub ok: bool,
    pub error: u32,
    pub value: u32,
    pub buffer: Seq<u8>,
}

impl View for Reply {
    type V = ReplyView;

    open spec fn view(&self) -> ReplyView {
        ReplyView { ok: self.ok, error: self.error, value: self.value, buffer: self.buffer@ }
    }
}

impl DeepView for Reply {
    type V = ReplyView;

    open spec fn deep_view(&self) -> ReplyView {
        self@
    }
}

impl ReplyView {
    /// Whether the call delivered: it succeeded, or it failed only because
    /// the buffer was too small for all that it had to deliver.
    pub open spec fn delivered(self) -> bool {
        self.ok || self.error == ERROR_INSUFFICIENT_BUFFER
    }

    /// The text of a registry property: the text in the buffer where the call
    /// delivered, and nothing where it failed for any other reason, whatever
    /// the buffer holds. A text that did not fit is cut, not refused.
    pub open spec fn property_text(self) -> Option<Seq<char>> {
        if self.delivered() {
            Some(text_of(self.buffer))
        } else {
            None
        }
    }

    /// The text in the buffer of a call that succeeded; nothing for a call
    /// that failed, for whatever reason.
    pub open spec fn text_if_ok(self) -> Option<Seq<char>> {
        if self.ok {
            Some(text_of(self.buffer))
        } else {
            None
        }
    }
}

impl Reply {
    /// Whether the call delivered.
    pub fn delivered(&self) -> (r: bool)
        ensures
            r == self@.delivered(),
    {
        self.ok || self.error == ERROR_INSUFFICIENT_BUFFER
    }

    /// Reads the answer to a registry property query.
    pub fn property_text(&self) -> (r: Option<String>)
        ensures
            r.deep_view() == self@.property_text(),
    {
        if self.delivered() {
            Some(decode_text(self.buffer.as_slice()))
        } else {
            None
        }
    }

    /// Reads the buffer of a call that must have succeeded to be read.
    pub fn text_if_ok(&self) -> (r: Option<String>)
        ensures
            r.deep_view() == self@.text_if_ok(),
    {
        if self.ok {
            Some(decode_text(self.buffer.as_slice()))
        } else {
            None
        }
    }
}

/// The answer to the query for one registry property.
#[derive(Debug, Clone, PartialEq, Eq)]
pub struct PropertyReply {
    pub code: u32,
    pub reply: Reply,
}

/// A [`PropertyReply`] as a mathematical value.
pub struct PropertyReplyView {
    pub code: u32,
    pub reply: ReplyView,
}

impl View for PropertyReply {
    type V = PropertyReplyView;

    open spec fn view(&self) -> PropertyReplyView {
        PropertyReplyView { code: self.code, reply: self.reply@ }
    }
}

impl DeepView for PropertyReply {
    type V = PropertyReplyView;

    open spec fn deep_view(&self) -> PropertyReplyView {
        self@
    }
}

/// The first answer among `replies` to a query for the property `code`.
pub open spec fn first_reply(replies: Seq<PropertyReplyView>, code: u32) -> Option<ReplyView>
    decreases replies.len(),
{
    if replies.len() == 0 {
        None
    } else if replies[0].code == code {
        Some(replies[0].reply)
    } else {
        first_reply(replies.drop_first(), code)
    }
}

/// One device of the set: the instance handle from its device-info block,
/// and the platform's answers to the calls that were made about it. An
/// answer is `None` where the call was never made.
#[derive(Debug, Clone, PartialEq, Eq)]
pub struct HidDevice {
    /// The instance handle of the device.
    pub dev_inst: u32,
    /// The answer to the call that fills the interface detail, with the bytes
    /// of the device path as its buffer.
    pub path_reply: Option<Reply>,
    /// The answer to the query for the device instance identifier.
    pub instance_reply: Option<Reply>,
    /// The answers to the registry property queries, in the order in which
    /// they were made.
    pub properties: Vec<PropertyReply>,
}

/// A [`HidDevice`] as a mathematical value.
pub struct HidDeviceView {
    pub dev_inst: u32,
    pub path_reply: Option<ReplyView>,
    pub instance_reply: Option<ReplyView>,
    pub properties: Seq<PropertyReplyView>,
}

impl View for HidDevice {
    type V = HidDeviceView;

    open spec fn view(&self) -> HidDeviceView {
        HidDeviceView {
            dev_inst: self.dev_inst,
            path_reply: self.path_reply.deep_view(),
            instance_reply: self.instance_reply.deep_view(),
            properties: self.properties.deep_view(),
        }
    }
}

impl DeepView for HidDevice {
    type V = HidDeviceView;

    open spec fn deep_view(&self) -> HidDeviceView {
        self@
    }
}

impl HidDeviceView {
    /// The registry property `code` of the device: the text of the first
    /// answer to a query for it, if that call delivered.
    pub open spec fn property(self, code: u32) -> Option<Seq<char>> {
        match first_reply(self.properties, code) {
            Some(reply) => reply.property_text(),
            None => None,
        }
    }

    /// The instance identifier of the device, and where the platform gave
    /// none, its hardware-id property.
    pub open spec fn instance_id(self) -> Option<Seq<char>> {
        match self.instance_reply {
            Some(reply) if reply.ok => Some(text_of(reply.buffer)),
            _ => self.property(SPDRP_HARDWAREID),
        }
    }

    /// The identifier by which the device is recognised; empty where the
    /// platform gave neither an instance identifier nor a hardware id.
    pub open spec fn hardware_id(self) -> Seq<char> {
        match self.instance_id() {
            Some(id) => id,
            None => Seq::empty(),
        }
    }

    /// The device path, where the call that fills it succeeded.
    pub open spec fn path(self) -> Option<Seq<char>> {
        match self.path_reply {
            Some(reply) => reply.text_if_ok(),
            None => None,
        }
    }
}

/// An answer whose buffer holds a text of nonzero bytes below 128 and a
/// terminator is read as that text: a property where the call delivered, a
/// path or an instance identifier where it succeeded.
pub proof fn ascii_answer_is_read(reply: ReplyView, text: Seq<u8>)
    requires
        holds_ascii_text(reply.buffer, text),
    ensures
        reply.delivered() ==> reply.property_text() == Some(ascii_chars(text)),
        reply.ok ==> reply.text_if_ok() == Some(ascii_chars(text)),
{
    terminated_ascii_text(reply.buffer, text);
}

/// A property whose first answer succeeded and holds a text of nonzero
/// bytes below 128 and a terminator is that text: all that stands before
/// the terminator and nothing of what follows it.
pub proof fn ascii_property_is_read(
    device: HidDeviceView,
    code: u32,
    reply: ReplyView,
    text: Seq<u8>,
)
    requires
        first_reply(device.properties, code) == Some(reply),
        reply.ok,
        holds_ascii_text(reply.buffer, text),
    ensures
        device.property(code) == Some(ascii_chars(text)),
{
    ascii_answer_is_read(reply, text);
}

/// An instance identifier that the platform gave as a text of nonzero bytes
/// below 128 and a terminator is that text, and it is the identifier by
/// which the device is recognised.
pub proof fn ascii_instance_id_is_read(device: HidDeviceView, reply: ReplyView, text: Seq<u8>)
    requires
        device.instance_reply == Some(reply),
        reply.ok,
        holds_ascii_text(reply.buffer, text),
    ensures
        device.instance_id() == Some(ascii_chars(text)),
        device.hardware_id() == ascii_chars(text),
{
    terminated_ascii_text(reply.buffer, text);
}

impl HidDevice {
    /// Reads the registry property `property_id` of the device. The property
    /// is absent where it was never queried and where the query failed for
    /// any reason but a buffer too small.
    pub fn property(&self, property_id: u32) -> (r: Option<String>)
        ensures
            r.deep_view() == self@.property(property_id),
    {
        let n: usize = self.properties.len();
        let mut i: usize = 0;
        proof {
            assert(self@.properties.skip(0) =~= self@.properties);
        }
        while i < n
            invariant
                n == self.properties@.len(),
                0 <= i <= n,
                first_reply(self@.properties, property_id) == first_reply(
                    self@.properties.skip(i as int),
                    property_id,
                ),
            decreases n - i,
        {
            proof {
                assert(self@.properties.skip(i as int).drop_first() =~= self@.properties.skip(
                    i + 1,
                ));
                assert(self@.properties.skip(i as int)[0] == self.properties@[i as int]@);
            }
            if self.properties[i].code == property_id {
                return self.properties[i].reply.property_text();
            }
            i = i + 1;
        }
        None
    }

    /// Reads the instance identifier of the device; where the platform gave
    /// none, the hardware-id property stands in for it.
    pub fn instance_id(&self) -> (r: Option<String>)
        ensures
            r.deep_view() == self@.instance_id(),
    {
        match &self.instance_reply {
            Some(reply) => {
                if reply.ok {
                    return Some(decode_text(reply.buffer.as_slice()));
                }
            },
            None => {},
        }
        self.property(SPDRP_HARDWAREID)
    }

    /// The identifier by which the device is recognised, or the empty string
    /// where the platform gave none.
    pub fn hardware_id(&self) -> (r: String)
        ensures
            r@ == self@.hardware_id(),
    {
        match self.instance_id() {
            Some(id) => id,
            None => String::new(),
        }
    }

    /// Reads the device path. The buffer is read only where the call that
    /// fills it succeeded.
    pub fn path(&self) -> (r: Option<String>)
        ensures
            r.deep_view() == self@.path(),
    {
        match &self.path_reply {
            Some(reply) => reply.text_if_ok(),
            None => None,
        }
    }
}

} // verus!
