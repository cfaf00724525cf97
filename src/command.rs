//! The commands of the DAC and how they are encoded.
use vstd::prelude::*;

use crate::payload::{
    be_bytes, lemma_fields_round_trip, pack_word, payload_address, payload_control, payload_data,
    payload_feature, payload_prefix, word_to_be_bytes,
};

verus! {

/// An output channel of the DAC, or one of the two reserved addresses.
///
/// Variants are declared in the order of their address codes.
#[derive(Eq, PartialEq, Copy, Clone, Debug, Structural)]
pub enum Channel {
    /// Channel A
    A,
    /// Channel B
    B,
    /// Channel C
    C,
    /// Channel D
    D,
    /// Channel E
    E,
    /// Channel F
    F,
    /// Channel G
    G,
    /// Channel H
    H,
    /// No message
    NOMSG,
    /// Broadcast (all channels)
    BROADCAST,
}

impl Channel {
    /// The 4-bit address code of the channel.
    pub open spec fn spec_code(&self) -> u8 {
        match self {
            Channel::A => 0,
            Channel::B => 1,
            Channel::C => 2,
            Channel::D => 3,
            Channel::E => 4,
            Channel::F => 5,
            Channel::G => 6,
            Channel::H => 7,
            Channel::NOMSG => 8,
            Channel::BROADCAST => 9,
        }
    }

    /// The 4-bit address code of the channel.
    #[verifier::when_used_as_spec(spec_code)]
    pub fn code(&self) -> (r: u8)
        ensures
            r == self.spec_code(),
            r < 10,
    {
        match self {
            Channel::A => 0,
            Channel::B => 1,
            Channel::C => 2,
            Channel::D => 3,
            Channel::E => 4,
            Channel::F => 5,
            Channel::G => 6,
            Channel::H => 7,
            Channel::NOMSG => 8,
            Channel::BROADCAST => 9,
        }
    }

    /// Get Channel from an index; only the eight output channels A to H
    /// have one.
    pub fn from_index(index: u8) -> (r: Channel)
        requires
            index < 8,
        ensures
            r.code() == index,
    {
        match index {
            0 => Channel::A,
            1 => Channel::B,
            2 => Channel::C,
            3 => Channel::D,
            4 => Channel::E,
            5 => Channel::F,
            6 => Channel::G,
            _ => Channel::H,
        }
    }

    /// The output channel with this index, or `None` where the index names
    /// none of the eight channels A to H.
    pub fn try_from_index(index: u8) -> (r: Option<Channel>)
        ensures
            r is Some <==> index < 8,
            r matches Some(c) ==> c.code() == index,
    {
        if index < 8 {
            Some(Channel::from_index(index))
        } else {
            None
        }
    }
}

/// The message control type
#[derive(Eq, PartialEq, Copy, Clone, Debug, Structural)]
pub enum ControlType {
    /// Write to input register [Untested]
    WriteToInputRegister,
    /// Update register [Untested]
    UpdateRegister,
    /// Write to channel and update all registers [Untested]
    WriteToChannelAndUpdateAllRegisters,
    /// Write to channel and update single register
    WriteToChannelAndUpdateSingleRegister,
    /// Power down [Untested]
    PowerDownComm,
    /// Write to clear code register [Untested]
    WriteToClearCodeRegister,
    /// Write to LDAC register [Untested]
    WriteToLDACRegister,
    /// Software reset [Untested]
    SoftwareReset,
}

impl ControlType {
    /// The 4-bit control code of the operation.
    pub open spec fn spec_code(&self) -> u8 {
        match self {
            ControlType::WriteToInputRegister => 0,
            ControlType::UpdateRegister => 1,
            ControlType::WriteToChannelAndUpdateAllRegisters => 2,
            ControlType::WriteToChannelAndUpdateSingleRegister => 3,
            ControlType::PowerDownComm => 4,
            ControlType::WriteToClearCodeRegister => 5,
            ControlType::WriteToLDACRegister => 6,
            ControlType::SoftwareReset => 7,
        }
    }

    /// The 4-bit control code of the operation.
    #[verifier::when_used_as_spec(spec_code)]
    pub fn code(&self) -> (r: u8)
        ensures
            r == self.spec_code(),
            r < 8,
    {
        match self {
            ControlType::WriteToInputRegister => 0,
            ControlType::UpdateRegister => 1,
            ControlType::WriteToChannelAndUpdateAllRegisters => 2,
            ControlType::WriteToChannelAndUpdateSingleRegister => 3,
            ControlType::PowerDownComm => 4,
            ControlType::WriteToClearCodeRegister => 5,
            ControlType::WriteToLDACRegister => 6,
            ControlType::SoftwareReset => 7,
        }
    }
}

/// The Message that is eventually serialized and transmitted to the DAC.
///
/// The input shift register of the DAC7568, DAC8168, and DAC8568 is 32 bits
/// wide: four prefix bits, four control bits, four address bits, sixteen
/// data bits and four feature bits. The data bits carry the 16-, 14-, or
/// 12-bit input code.
#[derive(Copy, Clone)]
pub struct Message {
    prefix: u8,
    control: u8,
    address: u8,
    data: u16,
    feature: u8,
}

impl Message {
    /// Every 4-bit field fits in its four bits.
    #[verifier::type_invariant]
    pub closed spec fn wf(self) -> bool {
        &&& self.prefix < 16
        &&& self.control < 16
        &&& self.address < 16
        &&& self.feature < 16
    }

    pub closed spec fn spec_prefix(&self) -> u8 {
        self.prefix
    }

    pub closed spec fn spec_control(&self) -> u8 {
        self.control
    }

    pub closed spec fn spec_address(&self) -> u8 {
        self.address
    }

    pub closed spec fn spec_data(&self) -> u16 {
        self.data
    }

    pub closed spec fn spec_feature(&self) -> u8 {
        self.feature
    }

    /// The message of these five fields.
    pub closed spec fn spec_from_fields(prefix: u8, control: u8, address: u8, data: u16, feature: u8) -> Message {
        Message { prefix, control, address, data, feature }
    }

    /// The message that sets `channel` to `value`, reflected around the
    /// 16-bit range where the output is inverted.
    pub open spec fn spec_voltage_message(channel: Channel, value: u16, is_inverted: bool) -> Message {
        Message::spec_from_fields(
            0,
            ControlType::WriteToChannelAndUpdateSingleRegister.spec_code(),
            channel.spec_code(),
            if is_inverted { (0xffff - value) as u16 } else { value },
            0,
        )
    }

    /// The message that selects the internal (feature 1) or the external
    /// (feature 0) voltage reference.
    pub open spec fn spec_reference_message(internal: bool) -> Message {
        Message::spec_from_fields(0, 0x08, 0, 0, if internal { 1 } else { 0 })
    }

    /// The software reset message, as the device documents it.
    pub open spec fn spec_reset_message() -> Message {
        Message::spec_from_fields(0b0001, 0b1100, 0, 0, 0)
    }

    /// The wire word of the message.
    pub open spec fn spec_payload_word(self) -> u32 {
        pack_word(
            self.spec_prefix() as u32,
            self.spec_control() as u32,
            self.spec_address() as u32,
            self.spec_data() as u32,
            self.spec_feature() as u32,
        )
    }

    /// The four bytes sent for the message, most significant first.
    pub open spec fn spec_payload_bytes(self) -> [u8; 4] {
        be_bytes(self.spec_payload_word())
    }

    /// The fields of the message built from these fields, where each fits
    /// its width.
    pub proof fn lemma_from_fields(prefix: u8, control: u8, address: u8, data: u16, feature: u8)
        ensures
            ({
                let m = Message::spec_from_fields(prefix, control, address, data, feature);
                &&& m.spec_prefix() == prefix
                &&& m.spec_control() == control
                &&& m.spec_address() == address
                &&& m.spec_data() == data
                &&& m.spec_feature() == feature
                &&& m.wf() <==> (prefix < 16 && control < 16 && address < 16 && feature < 16)
            }),
    {
    }

    /// Get internal reference message.
    /// Used for switching the DAC8568 from its default state, which uses an
    /// external reference, to its internal 2.5v reference, and back.
    pub fn get_internal_reference_message(internal: bool) -> (r: Message)
        ensures
            r == Message::spec_reference_message(internal),
            r.prefix() == 0,
            r.control() == 0x08,
            r.address() == 0,
            r.data() == 0,
            r.feature() == if internal { 1u8 } else { 0u8 },
    {
        Message {
            prefix: 0x00,
            control: 0x08,
            address: 0x00,
            data: 0x0000,
            feature: if internal { 0x01 } else { 0x00 },
        }
    }

    /// Get voltage message, which will update a channel with a given value
    pub fn get_voltage_message(channel: Channel, value: u16, is_inverted: bool) -> (r: Message)
        ensures
            r == Message::spec_voltage_message(channel, value, is_inverted),
            r.prefix() == 0,
            r.control() == ControlType::WriteToChannelAndUpdateSingleRegister.code(),
            r.address() == channel.code(),
            r.data() == if is_inverted { (u16::MAX - value) as u16 } else { value },
            r.feature() == 0,
    {
        let output: u16 = if is_inverted { u16::MAX - value } else { value };
        Message {
            prefix: 0,
            control: ControlType::WriteToChannelAndUpdateSingleRegister.code(),
            address: channel.code(),
            data: output,
            feature: 0,
        }
    }

    /// Get software reset message.
    ///
    /// If the software reset is executed, all registers inside the device
    /// are reset to default settings; that is, all DAC channels are reset to
    /// the power-on reset code (zero scale for grades A and C, midscale for
    /// grades B and D).
    pub fn get_software_reset_message() -> (r: Message)
        ensures
            r == Message::spec_reset_message(),
            r.prefix() == 0b0001,
            r.control() == 0b1100,
            r.address() == 0,
            r.data() == 0,
            r.feature() == 0,
    {
        Message { prefix: 0b0001, control: 0b1100, address: 0x00, data: 0x00, feature: 0x00 }
    }

    /// Get the message payload word
    pub fn get_payload_word(&self) -> (r: u32)
        ensures
            r == self.spec_payload_word(),
    {
        let mut payload: u32 = 0x00;
        payload |= (self.prefix as u32) << 28u32;
        payload |= (self.control as u32) << 24u32;
        payload |= (self.address as u32) << 20u32;
        payload |= (self.data as u32) << 4u32;
        payload |= self.feature as u32;
        proof {
            let p = self.prefix as u32;
            assert(0u32 | (p << 28u32) == p << 28u32) by (bit_vector);
        }
        payload
    }

    /// Get the message payload
    pub fn get_payload_bytes(&self) -> (r: [u8; 4])
        ensures
            r == self.spec_payload_bytes(),
    {
        word_to_be_bytes(self.get_payload_word())
    }

    /// The prefix field.
    #[verifier::when_used_as_spec(spec_prefix)]
    pub fn prefix(&self) -> (r: u8)
        ensures
            r == self.spec_prefix(),
            r < 16,
    {
        proof {
            use_type_invariant(self);
        }
        self.prefix
    }

    /// The control field.
    #[verifier::when_used_as_spec(spec_control)]
    pub fn control(&self) -> (r: u8)
        ensures
            r == self.spec_control(),
            r < 16,
    {
        proof {
            use_type_invariant(self);
        }
        self.control
    }

    /// The address field.
    #[verifier::when_used_as_spec(spec_address)]
    pub fn address(&self) -> (r: u8)
        ensures
            r == self.spec_address(),
            r < 16,
    {
        proof {
            use_type_invariant(self);
        }
        self.address
    }

    /// The data field.
    #[verifier::when_used_as_spec(spec_data)]
    pub fn data(&self) -> (r: u16)
        ensures
            r == self.spec_data(),
    {
        self.data
    }

    /// The feature field.
    #[verifier::when_used_as_spec(spec_feature)]
    pub fn feature(&self) -> (r: u8)
        ensures
            r == self.spec_feature(),
            r < 16,
    {
        proof {
            use_type_invariant(self);
        }
        self.feature
    }
}

/// Unpacking the payload bytes of any message gives back its five fields.
pub proof fn lemma_message_round_trip(m: Message)
    requires
        m.wf(),
    ensures
        payload_prefix(m.spec_payload_bytes()) == m.spec_prefix(),
        payload_control(m.spec_payload_bytes()) == m.spec_control(),
        payload_address(m.spec_payload_bytes()) == m.spec_address(),
        payload_data(m.spec_payload_bytes()) == m.spec_data(),
        payload_feature(m.spec_payload_bytes()) == m.spec_feature(),
{
    lemma_fields_round_trip(
        m.spec_prefix() as u32,
        m.spec_control() as u32,
        m.spec_address() as u32,
        m.spec_data() as u32,
        m.spec_feature() as u32,
    );
}

/// The payload of a voltage message carries the requested value in its data
/// field, or its reflection `65535 - value` where the output is inverted;
/// the other fields hold the single-channel write, the channel's address
/// and zeros.
pub proof fn lemma_voltage_payload(channel: Channel, value: u16, is_inverted: bool)
    ensures
        ({
            let b = Message::spec_voltage_message(channel, value, is_inverted).spec_payload_bytes();
            &&& payload_data(b) == if is_inverted { 65535 - value } else { value as int }
            &&& payload_prefix(b) == 0
            &&& payload_control(b) == 3
            &&& payload_address(b) == channel.spec_code()
            &&& payload_feature(b) == 0
        }),
{
    let m = Message::spec_voltage_message(channel, value, is_inverted);
    Message::lemma_from_fields(
        0,
        3,
        channel.spec_code(),
        if is_inverted { (0xffff - value) as u16 } else { value },
        0,
    );
    lemma_message_round_trip(m);
}

/// The software reset payload is always the four bytes `1C 00 00 00`:
/// prefix 0b0001, control 0b1100, and zeros elsewhere.
pub proof fn lemma_reset_payload()
    ensures
        Message::spec_reset_message().spec_payload_bytes() == [0x1cu8, 0x00u8, 0x00u8, 0x00u8],
{
    Message::lemma_from_fields(0b0001, 0b1100, 0, 0, 0);
    assert(pack_word(1u32, 12u32, 0u32, 0u32, 0u32) == 0x1c00_0000u32) by (bit_vector);
    assert(be_bytes(0x1c00_0000u32) =~= [0x1cu8, 0x00u8, 0x00u8, 0x00u8]) by {
        assert((0x1c00_0000u32 >> 24u32) as u8 == 0x1cu8 && (0x1c00_0000u32 >> 16u32) as u8 == 0u8
            && (0x1c00_0000u32 >> 8u32) as u8 == 0u8 && 0x1c00_0000u32 as u8 == 0u8) by (bit_vector);
    }
}

/// The two reference-mode payloads are `08 00 00 01` (internal) and
/// `08 00 00 00` (external): control 0x08, zeros elsewhere, and they differ
/// only in the lowest feature bit.
pub proof fn lemma_reference_payloads()
    ensures
        Message::spec_reference_message(true).spec_payload_bytes() == [0x08u8, 0x00u8, 0x00u8, 0x01u8],
        Message::spec_reference_message(false).spec_payload_bytes() == [0x08u8, 0x00u8, 0x00u8, 0x00u8],
{
    Message::lemma_from_fields(0, 0x08, 0, 0, 1);
    Message::lemma_from_fields(0, 0x08, 0, 0, 0);
    assert(pack_word(0u32, 8u32, 0u32, 0u32, 1u32) == 0x0800_0001u32) by (bit_vector);
    assert(pack_word(0u32, 8u32, 0u32, 0u32, 0u32) == 0x0800_0000u32) by (bit_vector);
    assert(be_bytes(0x0800_0001u32) =~= [0x08u8, 0x00u8, 0x00u8, 0x01u8]) by {
        assert((0x0800_0001u32 >> 24u32) as u8 == 0x08u8 && (0x0800_0001u32 >> 16u32) as u8 == 0u8
            && (0x0800_0001u32 >> 8u32) as u8 == 0u8 && 0x0800_0001u32 as u8 == 1u8) by (bit_vector);
    }
    assert(be_bytes(0x0800_0000u32) =~= [0x08u8, 0x00u8, 0x00u8, 0x00u8]) by {
        assert((0x0800_0000u32 >> 24u32) as u8 == 0x08u8 && (0x0800_0000u32 >> 16u32) as u8 == 0u8
            && (0x0800_0000u32 >> 8u32) as u8 == 0u8 && 0x0800_0000u32 as u8 == 0u8) by (bit_vector);
    }
}

} // verus!
