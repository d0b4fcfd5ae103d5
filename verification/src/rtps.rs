//! Messages of the wire protocol, as far as they pass through the security
//! plugins.

use vstd::prelude::*;

use crate::guid::GuidPrefix;

verus! {

/// The header of a message.
#[derive(Clone, Copy, PartialEq, Eq, Debug)]
pub struct Header {
    pub protocol_id: [u8; 4],
    pub protocol_version: [u8; 2],
    pub vendor_id: [u8; 2],
    pub guid_prefix: GuidPrefix,
}

/// The header of a submessage.
#[derive(Clone, Copy, PartialEq, Eq, Debug)]
pub struct SubmessageHeader {
    pub kind: u8,
    pub flags: u8,
    pub content_length: u16,
}

/// A submessage with its body serialized.
#[derive(Clone, PartialEq, Eq, Debug)]
pub struct Submessage {
    pub header: SubmessageHeader,
    pub body: Vec<u8>,
}

/// A message.
#[derive(Clone, PartialEq, Eq, Debug)]
pub struct Message {
    pub header: Header,
    pub submessages: Vec<Submessage>,
}

/// A submessage that a writer sends.
#[derive(Clone, PartialEq, Eq, Debug)]
pub enum WriterSubmessage {
    Data(Submessage),
    DataFrag(Submessage),
    Gap(Submessage),
    Heartbeat(Submessage),
    HeartbeatFrag(Submessage),
}

/// A submessage that a reader sends.
#[derive(Clone, PartialEq, Eq, Debug)]
pub enum ReaderSubmessage {
    AckNack(Submessage),
    NackFrag(Submessage),
}

/// What precedes a protected submessage.
#[derive(Clone, PartialEq, Eq, Debug)]
pub struct SecurePrefix {
    pub crypto_header: Vec<u8>,
}

/// What follows a protected submessage.
#[derive(Clone, PartialEq, Eq, Debug)]
pub struct SecurePostfix {
    pub crypto_footer: Vec<u8>,
}

/// One parameter of a parameter list, with its value serialized.
#[derive(Clone, PartialEq, Eq, Debug)]
pub struct Parameter {
    pub parameter_id: u16,
    pub value: Vec<u8>,
}

/// A list of parameters.
#[derive(Clone, PartialEq, Eq, Debug)]
pub struct ParameterList {
    pub parameters: Vec<Parameter>,
}

impl View for ParameterList {
    type V = Seq<Parameter>;

    open spec fn view(&self) -> Seq<Parameter> {
        self.parameters@
    }
}

impl ParameterList {
    /// The list without parameters.
    pub fn new() -> (list: Self)
        ensures
            list@ == Seq::<Parameter>::empty(),
    {
        ParameterList { parameters: Vec::new() }
    }
}

} // verus!
