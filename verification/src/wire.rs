use vstd::prelude::*;
use vstd::slice::slice_subrange;

verus! {

/// The field number under which every message carries its template id.
pub const TEMPLATE_ID_FIELD: u32 = 154467;

/// The most bytes a variable-length integer may occupy.
pub const MAX_VARINT_LEN: usize = 10;

/// How the value of a field is laid out on the wire.
#[derive(Clone, Copy, Debug, PartialEq, Eq, Structural)]
pub enum WireType {
    Varint,
    SixtyFourBit,
    LengthDelimited,
    StartGroup,
    EndGroup,
    ThirtyTwoBit,
}

/// Reads a variable-length integer from the front of `s`, looking at no more
/// than `budget` bytes, and gives its value and the number of bytes it
/// occupies. Each byte contributes its low seven bits, least significant group
/// first; a byte below 0x80 ends the integer. With the last byte of the budget
/// in hand only 0 and 1 are accepted.
pub open spec fn varint_within(s: Seq<u8>, budget: nat) -> Option<(nat, nat)>
    decreases budget,
{
    if budget == 0 || s.len() == 0 {
        None
    } else if s[0] < 0x80 {
        if budget == 1 && s[0] >= 2 {
            None
        } else {
            Some((s[0] as nat, 1))
        }
    } else {
        match varint_within(s.skip(1), (budget - 1) as nat) {
            Some((high, n)) => Some(((s[0] - 0x80) as nat + 128 * high, n + 1)),
            None => None,
        }
    }
}

/// The variable-length integer at the front of `s`: at most ten bytes, its
/// value within 64 bits.
pub open spec fn varint(s: Seq<u8>) -> Option<(nat, nat)> {
    varint_within(s, MAX_VARINT_LEN as nat)
}

/// The wire type that stands behind the low three bits of a key.
pub open spec fn wire_type_of(low_bits: nat) -> WireType {
    if low_bits == 0 {
        WireType::Varint
    } else if low_bits == 1 {
        WireType::SixtyFourBit
    } else if low_bits == 2 {
        WireType::LengthDelimited
    } else if low_bits == 3 {
        WireType::StartGroup
    } else if low_bits == 4 {
        WireType::EndGroup
    } else {
        WireType::ThirtyTwoBit
    }
}

/// The field key at the front of `s`: field number, wire type, and the number
/// of bytes the key occupies. A key is a variable-length integer that fits 32
/// bits, whose low three bits name one of the six wire types and whose other
/// bits give a field number of at least 1.
pub open spec fn key(s: Seq<u8>) -> Option<(u32, WireType, nat)> {
    match varint(s) {
        Some((k, n)) => if k <= u32::MAX && k % 8 <= 5 && k / 8 >= 1 {
            Some(((k / 8) as u32, wire_type_of(k % 8), n))
        } else {
            None
        },
        None => None,
    }
}

/// The number of bytes that the value of a field with the given wire type
/// occupies at the front of `s`. The count may reach beyond the end of `s`.
pub open spec fn value_extent(wire_type: WireType, s: Seq<u8>) -> Option<nat> {
    match wire_type {
        WireType::Varint => match varint(s) {
            Some((_, n)) => Some(n),
            None => None,
        },
        WireType::SixtyFourBit => Some(8),
        WireType::LengthDelimited => match varint(s) {
            Some((len, n)) => Some(n + len),
            None => None,
        },
        WireType::StartGroup => Some(0),
        WireType::EndGroup => Some(0),
        WireType::ThirtyTwoBit => Some(4),
    }
}

/// The template id that a scan of the serialized message `s` finds: the value
/// of the first field that is numbered `TEMPLATE_ID_FIELD` and laid out as a
/// variable-length integer, cut to 32 bits. Every field before it is stepped
/// over by its wire type. The scan gives up at the first key or value that
/// does not parse, and at the end of the buffer.
pub open spec fn template_id(s: Seq<u8>) -> Option<i32>
    decreases s.len(),
{
    match key(s) {
        None => None,
        Some((field, wire_type, n)) => {
            let value = s.skip(n as int);
            if field == TEMPLATE_ID_FIELD && wire_type == WireType::Varint {
                match varint(value) {
                    Some((v, _)) => Some(v as i32),
                    None => None,
                }
            } else {
                match value_extent(wire_type, value) {
                    None => None,
                    Some(m) => if 0 < n <= s.len() && m <= value.len() {
                        template_id(value.skip(m as int))
                    } else {
                        None
                    },
                }
            }
        },
    }
}

/// A variable-length integer occupies between one and `budget` bytes of the
/// buffer it was read from, and its value stays below 2 * 128^(budget - 1).
pub proof fn lemma_varint_within_bounds(s: Seq<u8>, budget: nat)
    requires
        budget <= 10,
    ensures
        varint_within(s, budget) matches Some((v, n)) ==> 1 <= n <= budget && n <= s.len() && v
            < varint_bound(budget),
    decreases budget,
{
    if budget == 0 || s.len() == 0 {
    } else if s[0] < 0x80 {
        lemma_varint_bound_positive(budget);
    } else {
        lemma_varint_within_bounds(s.skip(1), (budget - 1) as nat);
    }
}

/// The least value that `budget` bytes can no longer hold.
pub open spec fn varint_bound(budget: nat) -> nat
    decreases budget,
{
    if budget == 0 {
        1
    } else if budget == 1 {
        2
    } else {
        128 * varint_bound((budget - 1) as nat)
    }
}

proof fn lemma_varint_bound_positive(budget: nat)
    ensures
        budget >= 2 ==> varint_bound(budget) >= 128,
        budget == 1 ==> varint_bound(budget) == 2,
    decreases budget,
{
    if budget >= 2 {
        lemma_varint_bound_positive((budget - 1) as nat);
    }
}

/// A variable-length integer has one to ten bytes, all inside the buffer, and
/// a value that fits 64 bits.
pub proof fn lemma_varint_bounds(s: Seq<u8>)
    ensures
        varint(s) matches Some((v, n)) ==> 1 <= n <= 10 && n <= s.len() && v <= u64::MAX,
{
    lemma_varint_within_bounds(s, 10);
    assert(varint_bound(10) == 0x1_0000_0000_0000_0000) by {
        reveal_with_fuel(varint_bound, 11);
    }
}

/// The bytes that write the integer `v` in variable-length form: seven bits to
/// a byte, least significant group first, every byte but the last marked
/// with 0x80.
pub open spec fn varint_bytes(v: nat) -> Seq<u8>
    decreases v,
{
    if v < 128 {
        seq![v as u8]
    } else {
        seq![(v % 128 + 128) as u8] + varint_bytes(v / 128)
    }
}

/// The three bits that stand for a wire type in a key.
pub open spec fn wire_type_bits(wire_type: WireType) -> nat {
    match wire_type {
        WireType::Varint => 0,
        WireType::SixtyFourBit => 1,
        WireType::LengthDelimited => 2,
        WireType::StartGroup => 3,
        WireType::EndGroup => 4,
        WireType::ThirtyTwoBit => 5,
    }
}

/// The bytes that write the key of a field.
pub open spec fn key_bytes(number: u32, wire_type: WireType) -> Seq<u8> {
    varint_bytes(number as nat * 8 + wire_type_bits(wire_type))
}

/// One field of a message, as the scan sees it: `varint` is the value of a
/// field laid out as a variable-length integer, `data` the bytes of a
/// fixed-width or length-delimited one.
pub struct Field {
    pub number: u32,
    pub wire_type: WireType,
    pub varint: u64,
    pub data: Seq<u8>,
}

impl Field {
    /// The field has a number that a key can carry and data of the width its
    /// wire type asks for.
    pub open spec fn well_formed(self) -> bool {
        &&& 1 <= self.number < 0x2000_0000
        &&& self.wire_type == WireType::SixtyFourBit ==> self.data.len() == 8
        &&& self.wire_type == WireType::ThirtyTwoBit ==> self.data.len() == 4
        &&& self.wire_type == WireType::LengthDelimited ==> self.data.len() <= u64::MAX
    }

    /// The field is the one that holds the template id.
    pub open spec fn carries_template_id(self) -> bool {
        self.number == TEMPLATE_ID_FIELD && self.wire_type == WireType::Varint
    }

    /// The bytes that write the field's value.
    pub open spec fn value_bytes(self) -> Seq<u8> {
        match self.wire_type {
            WireType::Varint => varint_bytes(self.varint as nat),
            WireType::SixtyFourBit => self.data,
            WireType::LengthDelimited => varint_bytes(self.data.len()) + self.data,
            WireType::StartGroup => Seq::empty(),
            WireType::EndGroup => Seq::empty(),
            WireType::ThirtyTwoBit => self.data,
        }
    }

    /// The bytes that write the field: its key, then its value.
    pub open spec fn bytes(self) -> Seq<u8> {
        key_bytes(self.number, self.wire_type) + self.value_bytes()
    }
}

/// Every field of the message is well-formed.
pub open spec fn well_formed_fields(fields: Seq<Field>) -> bool {
    forall|i: int| 0 <= i < fields.len() ==> (#[trigger] fields[i]).well_formed()
}

/// The fields behind the first one of a well-formed message are well-formed.
pub proof fn lemma_tail_is_well_formed(fields: Seq<Field>)
    requires
        well_formed_fields(fields),
        fields.len() > 0,
    ensures
        fields[0].well_formed(),
        well_formed_fields(fields.skip(1)),
{
    assert forall|i: int| 0 <= i < fields.skip(1).len() implies (#[trigger] fields.skip(
        1,
    )[i]).well_formed() by {
        assert(fields.skip(1)[i] == fields[i + 1]);
    }
}

/// The bytes that write a message: its fields one after the other.
pub open spec fn message_bytes(fields: Seq<Field>) -> Seq<u8>
    decreases fields.len(),
{
    if fields.len() == 0 {
        Seq::empty()
    } else {
        fields[0].bytes() + message_bytes(fields.skip(1))
    }
}

/// The value of the first field that carries the template id, if any does.
pub open spec fn first_template_id(fields: Seq<Field>) -> Option<u64>
    decreases fields.len(),
{
    if fields.len() == 0 {
        None
    } else if fields[0].carries_template_id() {
        Some(fields[0].varint)
    } else {
        first_template_id(fields.skip(1))
    }
}

/// Reading back a written integer gives the integer and its width, whatever
/// follows it, as long as the budget can hold it.
pub proof fn lemma_varint_within_reads_back(v: nat, rest: Seq<u8>, budget: nat)
    requires
        1 <= budget,
        v < varint_bound(budget),
    ensures
        varint_within(varint_bytes(v) + rest, budget) == Some((v, varint_bytes(v).len())),
    decreases v,
{
    let s = varint_bytes(v) + rest;
    if v < 128 {
        assert(s[0] == v);
    } else {
        assert(budget >= 2);
        assert(s[0] == v % 128 + 128);
        assert(s.skip(1) == varint_bytes(v / 128) + rest);
        lemma_varint_within_reads_back(v / 128, rest, (budget - 1) as nat);
    }
}

/// Reading back a written 64-bit integer gives the integer and its width,
/// whatever follows it.
pub proof fn lemma_varint_reads_back(v: u64, rest: Seq<u8>)
    ensures
        varint(varint_bytes(v as nat) + rest) == Some((v as nat, varint_bytes(v as nat).len())),
{
    assert(varint_bound(10) == 0x1_0000_0000_0000_0000) by {
        reveal_with_fuel(varint_bound, 11);
    }
    lemma_varint_within_reads_back(v as nat, rest, 10);
}

/// Reading back a written key gives the field number and the wire type,
/// whatever follows it.
pub proof fn lemma_key_reads_back(number: u32, wire_type: WireType, rest: Seq<u8>)
    requires
        1 <= number < 0x2000_0000,
    ensures
        key(key_bytes(number, wire_type) + rest) == Some(
            (number, wire_type, key_bytes(number, wire_type).len()),
        ),
{
    let k = (number as nat * 8 + wire_type_bits(wire_type)) as u64;
    lemma_varint_reads_back(k, rest);
}

/// The scan steps over a well-formed field that does not carry the template
/// id and goes on with what follows it.
pub proof fn lemma_scan_steps_over(field: Field, rest: Seq<u8>)
    requires
        field.well_formed(),
        !field.carries_template_id(),
    ensures
        template_id(field.bytes() + rest) == template_id(rest),
{
    let s = field.bytes() + rest;
    let head = key_bytes(field.number, field.wire_type);
    let value = field.value_bytes() + rest;
    assert(s == head + value);
    lemma_key_reads_back(field.number, field.wire_type, value);
    lemma_varint_bounds(s);
    assert(s.skip(head.len() as int) == value);
    match field.wire_type {
        WireType::Varint => {
            lemma_varint_reads_back(field.varint, rest);
        },
        WireType::LengthDelimited => {
            let width = varint_bytes(field.data.len());
            assert(value == width + (field.data + rest));
            lemma_varint_reads_back(field.data.len() as u64, field.data + rest);
        },
        _ => {},
    }
    assert(value.skip(field.value_bytes().len() as int) == rest);
}

/// Tag extraction on a whole message: the scan of a message made of
/// well-formed fields returns the value of the first field that carries the
/// template id, cut to 32 bits, and `None` when no field carries it.
pub proof fn lemma_template_id_of_message(fields: Seq<Field>)
    requires
        well_formed_fields(fields),
    ensures
        template_id(message_bytes(fields)) == match first_template_id(fields) {
            Some(v) => Some(v as i32),
            None => None,
        },
    decreases fields.len(),
{
    if fields.len() == 0 {
        lemma_varint_bounds(message_bytes(fields));
    } else {
        let field = fields[0];
        let rest = message_bytes(fields.skip(1));
        if field.carries_template_id() {
            let head = key_bytes(field.number, field.wire_type);
            let value = field.value_bytes() + rest;
            assert(message_bytes(fields) == head + value);
            lemma_key_reads_back(field.number, field.wire_type, value);
            assert((head + value).skip(head.len() as int) == value);
            lemma_varint_reads_back(field.varint, rest);
        } else {
            lemma_scan_steps_over(field, rest);
            lemma_tail_is_well_formed(fields);
            lemma_template_id_of_message(fields.skip(1));
        }
    }
}

/// A message cut short inside a length-delimited field: where no earlier
/// field carries the template id and the field announces more bytes than the
/// buffer still holds, the scan returns `None`.
pub proof fn lemma_truncated_field_gives_none(
    fields: Seq<Field>,
    number: u32,
    announced: u64,
    present: Seq<u8>,
)
    requires
        well_formed_fields(fields),
        first_template_id(fields) is None,
        1 <= number < 0x2000_0000,
        present.len() < announced,
    ensures
        template_id(
            message_bytes(fields) + (key_bytes(number, WireType::LengthDelimited) + (varint_bytes(
                announced as nat,
            ) + present)),
        ) is None,
    decreases fields.len(),
{
    let head = key_bytes(number, WireType::LengthDelimited);
    let value = varint_bytes(announced as nat) + present;
    let cut = head + value;
    if fields.len() == 0 {
        assert(message_bytes(fields) + cut == cut);
        lemma_key_reads_back(number, WireType::LengthDelimited, value);
        assert(cut.skip(head.len() as int) == value);
        lemma_varint_reads_back(announced, present);
    } else {
        let field = fields[0];
        let rest = message_bytes(fields.skip(1));
        assert(message_bytes(fields) + cut == field.bytes() + (rest + cut));
        lemma_scan_steps_over(field, rest + cut);
        lemma_tail_is_well_formed(fields);
        lemma_truncated_field_gives_none(fields.skip(1), number, announced, present);
    }
}

/// A written integer that is cut short does not read as an integer.
pub proof fn lemma_cut_varint_is_none(v: nat, kept: int, budget: nat)
    requires
        0 <= kept < varint_bytes(v).len(),
    ensures
        varint_within(varint_bytes(v).take(kept), budget) is None,
    decreases v,
{
    let cut = varint_bytes(v).take(kept);
    if budget == 0 || kept == 0 {
    } else {
        assert(v >= 128);
        assert(cut[0] == v % 128 + 128);
        assert(cut.skip(1) == varint_bytes(v / 128).take(kept - 1));
        lemma_cut_varint_is_none(v / 128, kept - 1, (budget - 1) as nat);
    }
}

/// A well-formed field that is cut short and does not carry the template id
/// gives the scan nothing to find.
pub proof fn lemma_cut_field_gives_none(field: Field, kept: int)
    requires
        field.well_formed(),
        !field.carries_template_id(),
        0 <= kept < field.bytes().len(),
    ensures
        template_id(field.bytes().take(kept)) is None,
{
    let head = key_bytes(field.number, field.wire_type);
    let cut = field.bytes().take(kept);
    lemma_varint_bounds(cut);
    if kept < head.len() {
        assert(cut == head.take(kept));
        lemma_cut_varint_is_none(
            field.number as nat * 8 + wire_type_bits(field.wire_type),
            kept,
            10,
        );
    } else {
        let body = field.value_bytes();
        let left = kept - head.len();
        let value = body.take(left);
        assert(cut == head + value);
        lemma_key_reads_back(field.number, field.wire_type, value);
        assert(cut.skip(head.len() as int) == value);
        lemma_varint_bounds(value);
        match field.wire_type {
            WireType::Varint => {
                lemma_cut_varint_is_none(field.varint as nat, left, 10);
            },
            WireType::LengthDelimited => {
                let width = varint_bytes(field.data.len());
                if left < width.len() {
                    assert(value == width.take(left));
                    lemma_cut_varint_is_none(field.data.len(), left, 10);
                } else {
                    assert(value == width + field.data.take(left - width.len()));
                    lemma_varint_reads_back(
                        field.data.len() as u64,
                        field.data.take(left - width.len()),
                    );
                }
            },
            _ => {},
        }
    }
}

/// Truncation never invents a template id: where no field of a message
/// carries the template id, the scan of the message cut short at any point
/// returns `None`.
pub proof fn lemma_cut_message_gives_none(fields: Seq<Field>, kept: int)
    requires
        well_formed_fields(fields),
        first_template_id(fields) is None,
        0 <= kept <= message_bytes(fields).len(),
    ensures
        template_id(message_bytes(fields).take(kept)) is None,
    decreases fields.len(),
{
    let whole = message_bytes(fields);
    let cut = whole.take(kept);
    if fields.len() == 0 {
        lemma_varint_bounds(cut);
    } else {
        let field = fields[0];
        let rest = message_bytes(fields.skip(1));
        if kept < field.bytes().len() {
            assert(cut == field.bytes().take(kept));
            lemma_cut_field_gives_none(field, kept);
        } else {
            let left = kept - field.bytes().len();
            assert(cut == field.bytes() + rest.take(left));
            lemma_scan_steps_over(field, rest.take(left));
            lemma_tail_is_well_formed(fields);
            lemma_cut_message_gives_none(fields.skip(1), left);
        }
    }
}

/// `prost::encoding::decode_varint` on a byte slice: the value read and the
/// number of bytes left behind it, or `None` where prost reports an invalid
/// integer. The contract restates the decoder: up to ten bytes, seven bits
/// each, least significant group first, the tenth byte at most 1.
#[verifier::external_body]
fn decode_varint(buf: &[u8]) -> (r: Option<(u64, usize)>)
    ensures
        r == match varint(buf@) {
            Some((v, n)) => Some((v as u64, (buf@.len() - n) as usize)),
            None => None,
        },
{
    let mut rest: &[u8] = buf;
    match prost::encoding::decode_varint(&mut rest) {
        Ok(value) => Some((value, rest.len())),
        Err(_) => None,
    }
}

/// `prost::encoding::decode_key` on a byte slice: field number, the number of
/// the wire type and the number of bytes left behind the key, or `None` where
/// prost rejects the key (an invalid integer, more than 32 bits, wire type 6
/// or 7, field 0).
#[verifier::external_body]
fn decode_key(buf: &[u8]) -> (r: Option<(u32, u8, usize)>)
    ensures
        r == match key(buf@) {
            Some((field, wire_type, n)) => Some(
                (field, wire_type_bits(wire_type) as u8, (buf@.len() - n) as usize),
            ),
            None => None,
        },
{
    let mut rest: &[u8] = buf;
    match prost::encoding::decode_key(&mut rest) {
        Ok((field, wire_type)) => Some((field, wire_type as u8, rest.len())),
        Err(_) => None,
    }
}

/// The wire type with the given number.
fn wire_type_from(bits: u8) -> (wire_type: WireType)
    requires
        bits <= 5,
    ensures
        wire_type_bits(wire_type) == bits,
        wire_type == wire_type_of(bits as nat),
{
    if bits == 0 {
        WireType::Varint
    } else if bits == 1 {
        WireType::SixtyFourBit
    } else if bits == 2 {
        WireType::LengthDelimited
    } else if bits == 3 {
        WireType::StartGroup
    } else if bits == 4 {
        WireType::EndGroup
    } else {
        WireType::ThirtyTwoBit
    }
}

/// `prost::encoding::encode_varint` on a vector: appends the integer in
/// variable-length form, seven bits to a byte, least significant group
/// first.
#[verifier::external_body]
fn encode_varint(value: u64, buf: &mut Vec<u8>)
    ensures
        final(buf)@ == old(buf)@ + varint_bytes(value as nat),
{
    prost::encoding::encode_varint(value, buf)
}

/// `prost::encoding::encode_key` on a vector: appends the key of a field that
/// is laid out as a variable-length integer. The key is the field number
/// times eight, plus the number of the wire type, in variable-length form.
/// prost checks in debug builds that the field number is between 1 and
/// 2^29 - 1.
#[verifier::external_body]
fn encode_varint_key(number: u32, buf: &mut Vec<u8>)
    requires
        1 <= number < 0x2000_0000,
    ensures
        final(buf)@ == old(buf)@ + key_bytes(number, WireType::Varint),
{
    prost::encoding::encode_key(number, prost::encoding::WireType::Varint, buf)
}

/// The 64-bit pattern that writes a 32-bit integer: negative values are
/// widened with their sign.
pub open spec fn widened(value: i32) -> u64 {
    value as i64 as u64
}

/// The field that carries `value` as the template id.
pub open spec fn template_id_field(value: i32) -> Field {
    Field {
        number: TEMPLATE_ID_FIELD,
        wire_type: WireType::Varint,
        varint: widened(value),
        data: Seq::empty(),
    }
}

/// The bytes of a message that carries its template id and nothing else.
pub open spec fn template_only(value: i32) -> Seq<u8> {
    message_bytes(seq![template_id_field(value)])
}

/// A message that carries nothing but its template id is a key and an
/// integer: at most twenty bytes.
pub proof fn lemma_template_only_is_short(value: i32)
    ensures
        template_only(value) == key_bytes(TEMPLATE_ID_FIELD, WireType::Varint) + varint_bytes(
            widened(value) as nat,
        ),
        template_only(value).len() <= 20,
{
    let field = template_id_field(value);
    let fields = seq![field];
    let head = key_bytes(TEMPLATE_ID_FIELD, WireType::Varint);
    let tail = varint_bytes(widened(value) as nat);
    let empty = Seq::<u8>::empty();
    assert(fields.skip(1).len() == 0);
    assert(message_bytes(fields.skip(1)) == empty);
    assert(message_bytes(fields) == field.bytes() + empty);
    assert(field.bytes() + empty == field.bytes());
    lemma_varint_reads_back((TEMPLATE_ID_FIELD * 8) as u64, empty);
    lemma_varint_bounds(head + empty);
    lemma_varint_reads_back(widened(value), empty);
    lemma_varint_bounds(tail + empty);
    assert(head + empty == head);
    assert(tail + empty == tail);
}

/// Serializes a message that carries the given template id and no other
/// field. Scanning the result gives the template id back.
pub fn encode_template_id(value: i32) -> (payload: Vec<u8>)
    ensures
        payload@ == template_only(value),
        template_id(payload@) == Some(value),
{
    let mut payload: Vec<u8> = Vec::new();
    encode_varint_key(TEMPLATE_ID_FIELD, &mut payload);
    encode_varint(#[verifier::truncate] ((value as i64) as u64), &mut payload);
    proof {
        let fields = seq![template_id_field(value)];
        lemma_template_only_is_short(value);
        assert(fields[0].well_formed());
        assert(well_formed_fields(fields));
        lemma_template_id_of_message(fields);
        assert(first_template_id(fields) == Some(widened(value)));
        assert(widened(value) as i32 == value) by (bit_vector);
    }
    payload
}

/// Scans a serialized message for its template id without decoding the
/// message. The buffer is only read, never copied.
pub fn extract_template_id(bytes: &[u8]) -> (r: Option<i32>)
    ensures
        r == template_id(bytes@),
{
    let len = bytes.len();
    let mut pos: usize = 0;
    assert(bytes@.skip(0) == bytes@);
    loop
        invariant
            len == bytes@.len(),
            pos <= len,
            template_id(bytes@) == template_id(bytes@.skip(pos as int)),
        decreases len - pos,
    {
        let ghost here = bytes@.skip(pos as int);
        let at_key = slice_subrange(bytes, pos, len);
        assert(at_key@ == here);
        proof {
            lemma_varint_bounds(here);
        }
        let (field, bits, left) = match decode_key(at_key) {
            None => {
                return None;
            },
            Some(found) => found,
        };
        let wire_type = wire_type_from(bits);
        let ghost key_len = (here.len() - left) as nat;
        let value_pos: usize = len - left;
        let at_value = slice_subrange(bytes, value_pos, len);
        let ghost value = here.skip(key_len as int);
        assert(at_value@ == value);
        proof {
            lemma_varint_bounds(value);
        }
        if field == TEMPLATE_ID_FIELD && wire_type == WireType::Varint {
            return match decode_varint(at_value) {
                Some((v, _)) => Some(#[verifier::truncate] (v as i32)),
                None => None,
            };
        }
        let next: usize = match wire_type {
            WireType::Varint => match decode_varint(at_value) {
                Some((_, rest)) => len - rest,
                None => {
                    return None;
                },
            },
            WireType::SixtyFourBit => {
                if left < 8 {
                    return None;
                }
                value_pos + 8
            },
            WireType::LengthDelimited => match decode_varint(at_value) {
                Some((n, rest)) => {
                    if n > rest as u64 {
                        return None;
                    }
                    len - rest + n as usize
                },
                None => {
                    return None;
                },
            },
            WireType::StartGroup => value_pos,
            WireType::EndGroup => value_pos,
            WireType::ThirtyTwoBit => {
                if left < 4 {
                    return None;
                }
                value_pos + 4
            },
        };
        assert(value.skip(next - value_pos) == bytes@.skip(next as int));
        pos = next;
    }
}

} // verus!
