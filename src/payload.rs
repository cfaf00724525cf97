//! The 32-bit wire word of a command and its big-endian bytes.
//!
//! Bit layout, most significant first: prefix (31..28), control (27..24),
//! address (23..20), data (19..4), feature (3..0).
use vstd::prelude::*;

verus! {

/// The wire word holding the five fields at their places in the layout.
pub open spec fn pack_word(prefix: u32, control: u32, address: u32, data: u32, feature: u32) -> u32 {
    (prefix << 28u32) | (control << 24u32) | (address << 20u32) | (data << 4u32) | feature
}

/// The prefix field of a wire word.
pub open spec fn word_prefix(w: u32) -> u32 {
    w >> 28u32
}

/// The control field of a wire word.
pub open spec fn word_control(w: u32) -> u32 {
    (w >> 24u32) & 0xfu32
}

/// The address field of a wire word.
pub open spec fn word_address(w: u32) -> u32 {
    (w >> 20u32) & 0xfu32
}

/// The data field of a wire word.
pub open spec fn word_data(w: u32) -> u32 {
    (w >> 4u32) & 0xffffu32
}

/// The feature field of a wire word.
pub open spec fn word_feature(w: u32) -> u32 {
    w & 0xfu32
}

/// The four bytes of a word, most significant first.
pub open spec fn be_bytes(w: u32) -> [u8; 4] {
    [(w >> 24u32) as u8, (w >> 16u32) as u8, (w >> 8u32) as u8, w as u8]
}

/// The word whose big-endian bytes these are.
pub open spec fn be_word(b: [u8; 4]) -> u32 {
    ((b[0] as u32) << 24u32) | ((b[1] as u32) << 16u32) | ((b[2] as u32) << 8u32) | (b[3] as u32)
}

/// The prefix field carried by four payload bytes.
pub open spec fn payload_prefix(b: [u8; 4]) -> u32 {
    word_prefix(be_word(b))
}

/// The control field carried by four payload bytes.
pub open spec fn payload_control(b: [u8; 4]) -> u32 {
    word_control(be_word(b))
}

/// The address field carried by four payload bytes.
pub open spec fn payload_address(b: [u8; 4]) -> u32 {
    word_address(be_word(b))
}

/// The data field carried by four payload bytes.
pub open spec fn payload_data(b: [u8; 4]) -> u32 {
    word_data(be_word(b))
}

/// The feature field carried by four payload bytes.
pub open spec fn payload_feature(b: [u8; 4]) -> u32 {
    word_feature(be_word(b))
}

/// Packing five in-range fields and unpacking the word gives the fields back.
pub proof fn lemma_pack_unpack(prefix: u32, control: u32, address: u32, data: u32, feature: u32)
    requires
        prefix < 16,
        control < 16,
        address < 16,
        data < 0x1_0000,
        feature < 16,
    ensures
        word_prefix(pack_word(prefix, control, address, data, feature)) == prefix,
        word_control(pack_word(prefix, control, address, data, feature)) == control,
        word_address(pack_word(prefix, control, address, data, feature)) == address,
        word_data(pack_word(prefix, control, address, data, feature)) == data,
        word_feature(pack_word(prefix, control, address, data, feature)) == feature,
{
    assert({
        let w = (prefix << 28u32) | (control << 24u32) | (address << 20u32) | (data << 4u32) | feature;
        &&& w >> 28u32 == prefix
        &&& (w >> 24u32) & 0xfu32 == control
        &&& (w >> 20u32) & 0xfu32 == address
        &&& (w >> 4u32) & 0xffffu32 == data
        &&& w & 0xfu32 == feature
    }) by (bit_vector)
        requires
            prefix < 16,
            control < 16,
            address < 16,
            data < 0x1_0000,
            feature < 16,
    ;
}

/// Reading back the big-endian bytes of a word gives the word.
pub proof fn lemma_be_round_trip(w: u32)
    ensures
        be_word(be_bytes(w)) == w,
{
    let b = be_bytes(w);
    assert(b[0] == (w >> 24u32) as u8);
    assert(b[1] == (w >> 16u32) as u8);
    assert(b[2] == (w >> 8u32) as u8);
    assert(b[3] == w as u8);
    assert(((((w >> 24u32) as u8) as u32) << 24u32) | ((((w >> 16u32) as u8) as u32) << 16u32)
        | ((((w >> 8u32) as u8) as u32) << 8u32) | ((w as u8) as u32) == w) by (bit_vector);
}

/// Packing five fields, each within its width, into a word, splitting the
/// word into big-endian bytes, and unpacking those bytes gives back the
/// five fields.
pub proof fn lemma_fields_round_trip(prefix: u32, control: u32, address: u32, data: u32, feature: u32)
    requires
        prefix < 16,
        control < 16,
        address < 16,
        data < 0x1_0000,
        feature < 16,
    ensures
        ({
            let b = be_bytes(pack_word(prefix, control, address, data, feature));
            &&& payload_prefix(b) == prefix
            &&& payload_control(b) == control
            &&& payload_address(b) == address
            &&& payload_data(b) == data
            &&& payload_feature(b) == feature
        }),
{
    lemma_be_round_trip(pack_word(prefix, control, address, data, feature));
    lemma_pack_unpack(prefix, control, address, data, feature);
}

/// The bytes of a word, most significant first.
pub fn word_to_be_bytes(w: u32) -> (r: [u8; 4])
    ensures
        r == be_bytes(w),
{
    let r: [u8; 4] = [(w >> 24u32) as u8, (w >> 16u32) as u8, (w >> 8u32) as u8, w as u8];
    assert(r =~= be_bytes(w));
    r
}

} // verus!
