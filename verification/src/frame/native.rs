//! Scoped native representation agreements and structural type tokens.
//!
//! A structural type token is independent of a payload encoding allocation.
//! Deployments explicitly select either a private-id table or a typed
//! operation contract using id zero; neither mode falls back to the other.
//! Agreements retain their complete profile generation while frames are in
//! flight; changing a table requires a new version.
use vstd::prelude::*;
use vstd::bytes::*;
use vstd::multiset::Multiset;
use vstd::string::*;
use vstd::utf8::*;

use std::sync::Arc;

use sha2::Digest;

use crate::frame::codec::{append_slice, write_u32, write_u64};
use crate::frame::metadata::{encoding_description, encoding_from_id, PayloadEncoding, PayloadEncodingModel};
use crate::text::{append_decimal, concat3, concat_str, decimal, str_eq};

verus! {

/// A versioned structural native type token (not a registry encoding id).
/// All 32-bit values, zero included, can be carried opaquely.
#[derive(Clone, Copy, Debug, PartialEq, Eq, Structural, Hash, PartialOrd, Ord)]
pub struct NativeTypeToken(pub u32);

impl NativeTypeToken {
    /// Wraps a token received from metadata.
    pub fn from_u32(value: u32) -> (t: NativeTypeToken)
        ensures
            t.0 == value,
    {
        NativeTypeToken(value)
    }

    /// Returns the token's complete 32-bit value.
    pub fn as_u32(self) -> (v: u32)
        ensures
            v == self.0,
    {
        self.0
    }
}

/// Byte order of a native representation.
#[derive(Clone, Copy, Debug, PartialEq, Eq, Structural)]
pub enum NativeByteOrder {
    /// Little-endian scalars.
    LittleEndian,
    /// Big-endian scalars.
    BigEndian,
}

/// `u16::from_ne_bytes`: reads two bytes in the target's native byte order,
/// which is little-endian or big-endian; which one depends on the machine
/// and is not stated.
#[verifier::external_body]
fn u16_from_native_bytes(bytes: [u8; 2]) -> (v: u16)
    ensures
        v == bytes@[0] as int + 256 * (bytes@[1] as int) || v == 256 * (bytes@[0] as int) + bytes@[1] as int,
{
    u16::from_ne_bytes(bytes)
}

/// The byte order that a probe reveals: the value the target reads from the
/// bytes `[1, 0]` is 1 exactly on a little-endian target.
pub open spec fn order_of_probe(probe: u16) -> NativeByteOrder {
    if probe == 1 {
        NativeByteOrder::LittleEndian
    } else {
        NativeByteOrder::BigEndian
    }
}

/// The byte order revealed by `probe`, the value the target reads from the
/// bytes `[1, 0]` in its native order.
pub fn byte_order_from_probe(probe: u16) -> (o: NativeByteOrder)
    ensures
        o == order_of_probe(probe),
{
    if probe == 1 {
        NativeByteOrder::LittleEndian
    } else {
        NativeByteOrder::BigEndian
    }
}

impl NativeByteOrder {
    /// Returns the current target's scalar byte order, read from how the
    /// target stores the integer 1 in two bytes. Which order that is depends
    /// on the machine: it is that of the probe 1 (little-endian) or of the
    /// probe 256 (big-endian).
    pub fn native() -> (o: NativeByteOrder)
        ensures
            exists|probe: u16| (probe == 1 || probe == 256) && o == #[trigger] order_of_probe(probe),
    {
        let probe = u16_from_native_bytes([1u8, 0u8]);
        assert(probe == 1 || probe == 256);
        byte_order_from_probe(probe)
    }
}

/// One named field (or repeated array element) of a native representation.
#[derive(Debug)]
pub struct NativeField {
    name: String,
    offset: u64,
    count: u64,
    representation: NativeRepresentation,
}

/// Complete structural description of a native value in one target ABI:
/// name, revision, size, alignment, byte order and nested fields.
#[derive(Debug)]
pub struct NativeRepresentation {
    name: String,
    revision: u32,
    size: u64,
    alignment: u64,
    byte_order: NativeByteOrder,
    fields: Vec<NativeField>,
}

/// Abstract value of a [`NativeField`].
pub ghost struct FieldModel {
    pub name: Seq<char>,
    pub offset: u64,
    pub count: u64,
    pub representation: RepresentationModel,
}

/// Abstract value of a [`NativeRepresentation`].
pub ghost struct RepresentationModel {
    pub name: Seq<char>,
    pub revision: u32,
    pub size: u64,
    pub alignment: u64,
    pub byte_order: NativeByteOrder,
    pub fields: Seq<FieldModel>,
}

/// The abstract values of the first `n` fields of `r`.
pub closed spec fn fields_model(r: NativeRepresentation, n: nat) -> Seq<FieldModel>
    decreases r, 0nat, n,
{
    if n == 0 || n > r.fields@.len() {
        Seq::empty()
    } else {
        let f = r.fields@[n - 1];
        proof {
            assert(decreases_to!(r => r.fields));
            assert(decreases_to!(r.fields => r.fields@));
            assert(decreases_to!(r.fields@ => r.fields@[n - 1]));
            assert(decreases_to!(f => f.representation));
        }
        fields_model(r, (n - 1) as nat).push(FieldModel {
            name: f.name@,
            offset: f.offset,
            count: f.count,
            representation: representation_model(f.representation),
        })
    }
}

/// The abstract value of representation `r`.
pub closed spec fn representation_model(r: NativeRepresentation) -> RepresentationModel
    decreases r, 1nat, 0nat,
{
    RepresentationModel {
        name: r.name@,
        revision: r.revision,
        size: r.size,
        alignment: r.alignment,
        byte_order: r.byte_order,
        fields: fields_model(r, r.fields@.len()),
    }
}

/// The abstract value of field `f`.
pub closed spec fn field_model(f: NativeField) -> FieldModel {
    FieldModel {
        name: f.name@,
        offset: f.offset,
        count: f.count,
        representation: representation_model(f.representation),
    }
}

/// The first `n` fields of `r`, field by field.
proof fn lemma_fields_model(r: NativeRepresentation, n: nat)
    requires
        n <= r.fields@.len(),
    ensures
        fields_model(r, n) == r.fields@.take(n as int).map_values(|f: NativeField| field_model(f)),
    decreases n,
{
    if n > 0 {
        lemma_fields_model(r, (n - 1) as nat);
        assert(r.fields@.take(n as int).map_values(|f: NativeField| field_model(f)) =~= r.fields@.take(
            n - 1,
        ).map_values(|f: NativeField| field_model(f)).push(field_model(r.fields@[n - 1])));
    } else {
        assert(r.fields@.take(0).map_values(|f: NativeField| field_model(f)) =~= Seq::<FieldModel>::empty());
    }
}

/// The abstract value of a representation is made of its parts and the
/// abstract values of its fields.
proof fn lemma_representation_model(r: NativeRepresentation)
    ensures
        representation_model(r).fields == r.fields@.map_values(|f: NativeField| field_model(f)),
        representation_model(r).fields.len() == r.fields@.len(),
{
    lemma_fields_model(r, r.fields@.len());
    assert(r.fields@.take(r.fields@.len() as int) =~= r.fields@);
}

impl View for NativeField {
    type V = FieldModel;

    closed spec fn view(&self) -> FieldModel {
        field_model(*self)
    }
}

impl View for NativeRepresentation {
    type V = RepresentationModel;

    closed spec fn view(&self) -> RepresentationModel {
        representation_model(*self)
    }
}

// ---------------------------------------------------------------------------
// Canonical structural bytes
// ---------------------------------------------------------------------------

/// A u64 length-prefixed UTF-8 string.
pub open spec fn string_bytes(s: Seq<char>) -> Seq<u8> {
    spec_u64_to_le_bytes(encode_utf8(s).len() as u64) + encode_utf8(s)
}

/// Byte order code: 1 for little-endian, 2 for big-endian.
pub open spec fn byte_order_code(o: NativeByteOrder) -> u8 {
    match o {
        NativeByteOrder::LittleEndian => 1,
        NativeByteOrder::BigEndian => 2,
    }
}

/// The encodings of the first `n` fields of `r`: each field's name, u64
/// offset, u64 count and recursively encoded representation.
pub open spec fn fields_bytes(r: RepresentationModel, n: nat) -> Seq<u8>
    decreases r, 0nat, n,
{
    if n == 0 || n > r.fields.len() {
        Seq::empty()
    } else {
        let f = r.fields[n - 1];
        proof {
            assert(decreases_to!(r => r.fields));
            assert(decreases_to!(r.fields => r.fields[n - 1]));
            assert(decreases_to!(f => f.representation));
        }
        fields_bytes(r, (n - 1) as nat) + (string_bytes(f.name) + (spec_u64_to_le_bytes(f.offset)
            + (spec_u64_to_le_bytes(f.count) + representation_bytes(f.representation))))
    }
}

/// The version 1 structural encoding of `r` (without the domain prefix):
/// name, u32 revision, u64 size, u64 alignment, byte order code, u64 field
/// count, then the fields in declaration order. All integers little-endian.
pub open spec fn representation_bytes(r: RepresentationModel) -> Seq<u8>
    decreases r, 1nat, 0nat,
{
    string_bytes(r.name) + (spec_u32_to_le_bytes(r.revision) + (spec_u64_to_le_bytes(r.size)
        + (spec_u64_to_le_bytes(r.alignment) + (seq![byte_order_code(r.byte_order)]
        + (spec_u64_to_le_bytes(r.fields.len() as u64) + fields_bytes(r, r.fields.len()))))))
}

/// The ASCII domain of representation encodings, NUL terminated.
pub open spec fn representation_domain() -> Seq<u8> {
    encode_utf8("uprotocol.native-representation.v1"@).push(0u8)
}

/// The canonical structural bytes of `r`: domain, then its encoding.
pub open spec fn canonical_representation_bytes(r: RepresentationModel) -> Seq<u8> {
    representation_domain() + representation_bytes(r)
}

pub(crate) fn append_string(bytes: &mut Vec<u8>, value: &str)
    ensures
        final(bytes)@ == old(bytes)@ + string_bytes(value@),
{
    let raw = value.as_bytes();
    write_u64(bytes, raw.len() as u64);
    append_slice(bytes, raw);
    assert(final(bytes)@ =~= old(bytes)@ + string_bytes(value@));
}

/// Starts a byte vector with the UTF-8 bytes of `domain` and a NUL byte.
fn domain_bytes(domain: &str) -> (v: Vec<u8>)
    ensures
        v@ == encode_utf8(domain@).push(0u8),
{
    let mut v: Vec<u8> = Vec::new();
    append_slice(&mut v, domain.as_bytes());
    v.push(0u8);
    assert(v@ =~= encode_utf8(domain@).push(0u8));
    v
}

impl NativeRepresentation {
    fn append_canonical(&self, bytes: &mut Vec<u8>)
        ensures
            final(bytes)@ == old(bytes)@ + representation_bytes(self@),
        decreases self,
    {
        proof {
            lemma_representation_model(*self);
        }
        let ghost m = self@;
        append_string(bytes, self.name.as_str());
        write_u32(bytes, self.revision);
        write_u64(bytes, self.size);
        write_u64(bytes, self.alignment);
        bytes.push(match self.byte_order {
            NativeByteOrder::LittleEndian => 1u8,
            NativeByteOrder::BigEndian => 2u8,
        });
        let n = self.fields.len();
        write_u64(bytes, n as u64);
        let ghost head = bytes@;
        assert(head == old(bytes)@ + (string_bytes(m.name) + (spec_u32_to_le_bytes(m.revision) + (
        spec_u64_to_le_bytes(m.size) + (spec_u64_to_le_bytes(m.alignment) + (seq![byte_order_code(m.byte_order)]
            + spec_u64_to_le_bytes(m.fields.len() as u64))))))) by {
            assert(head =~= old(bytes)@ + (string_bytes(m.name) + (spec_u32_to_le_bytes(m.revision) + (
            spec_u64_to_le_bytes(m.size) + (spec_u64_to_le_bytes(m.alignment) + (seq![byte_order_code(m.byte_order)]
                + spec_u64_to_le_bytes(m.fields.len() as u64)))))));
        }
        let mut i: usize = 0;
        while i < n
            invariant
                n == self.fields@.len(),
                m == self@,
                m.fields == self.fields@.map_values(|f: NativeField| field_model(f)),
                i <= n,
                bytes@ == head + fields_bytes(m, i as nat),
            decreases n - i,
        {
            let f = &self.fields[i];
            proof {
                assert(decreases_to!(*self => self.fields));
                assert(decreases_to!(self.fields => self.fields@));
                assert(decreases_to!(self.fields@ => self.fields@[i as int]));
                assert(decreases_to!(*f => f.representation));
            }
            append_string(bytes, f.name.as_str());
            write_u64(bytes, f.offset);
            write_u64(bytes, f.count);
            f.representation.append_canonical(bytes);
            assert(m.fields[i as int] == field_model(*f));
            assert(bytes@ =~= head + fields_bytes(m, (i + 1) as nat));
            i = i + 1;
        }
        assert(bytes@ =~= old(bytes)@ + representation_bytes(m));
    }

    /// Returns the canonical structural bytes: the domain
    /// `uprotocol.native-representation.v1` and a NUL byte, then the
    /// representation encoded as [`representation_bytes`] states. Versioned
    /// independently of registry ids; fields keep declaration order.
    pub fn canonical_bytes(&self) -> (v: Vec<u8>)
        ensures
            v@ == canonical_representation_bytes(self@),
    {
        let mut bytes = domain_bytes("uprotocol.native-representation.v1");
        self.append_canonical(&mut bytes);
        bytes
    }
}

/// Whether two representations are structurally equal (names, revisions,
/// sizes, alignments, byte orders and all nested fields).
pub fn representation_eq(a: &NativeRepresentation, b: &NativeRepresentation) -> (r: bool)
    ensures
        r == (a@ == b@),
    decreases a,
{
    proof {
        lemma_representation_model(*a);
        lemma_representation_model(*b);
    }
    if !str_eq(a.name.as_str(), b.name.as_str()) || a.revision != b.revision || a.size != b.size
        || a.alignment != b.alignment || a.byte_order != b.byte_order || a.fields.len() != b.fields.len() {
        return false;
    }
    let n = a.fields.len();
    let mut i: usize = 0;
    while i < n
        invariant
            n == a.fields@.len(),
            n == b.fields@.len(),
            a@.fields == a.fields@.map_values(|f: NativeField| field_model(f)),
            b@.fields == b.fields@.map_values(|f: NativeField| field_model(f)),
            i <= n,
            forall|j: int| 0 <= j < i ==> a@.fields[j] == b@.fields[j],
        decreases n - i,
    {
        let fa = &a.fields[i];
        let fb = &b.fields[i];
        proof {
            assert(decreases_to!(*a => a.fields));
            assert(decreases_to!(a.fields => a.fields@));
            assert(decreases_to!(a.fields@ => a.fields@[i as int]));
            assert(decreases_to!(*fa => fa.representation));
        }
        if !str_eq(fa.name.as_str(), fb.name.as_str()) || fa.offset != fb.offset || fa.count != fb.count
            || !representation_eq(&fa.representation, &fb.representation) {
            assert(a@.fields[i as int] != b@.fields[i as int]);
            return false;
        }
        assert(a@.fields[i as int] == b@.fields[i as int]);
        i = i + 1;
    }
    assert(a@.fields =~= b@.fields);
    true
}

/// A structural copy of a representation, nested fields included.
fn clone_representation(r: &NativeRepresentation) -> (c: NativeRepresentation)
    ensures
        c@ == r@,
    decreases r,
{
    proof {
        lemma_representation_model(*r);
    }
    let n = r.fields.len();
    let mut fields: Vec<NativeField> = Vec::new();
    let mut i: usize = 0;
    while i < n
        invariant
            n == r.fields@.len(),
            r@.fields == r.fields@.map_values(|f: NativeField| field_model(f)),
            i <= n,
            fields@.len() == i,
            forall|j: int| 0 <= j < i ==> field_model(#[trigger] fields@[j]) == r@.fields[j],
        decreases n - i,
    {
        let f = &r.fields[i];
        proof {
            assert(decreases_to!(*r => r.fields));
            assert(decreases_to!(r.fields => r.fields@));
            assert(decreases_to!(r.fields@ => r.fields@[i as int]));
            assert(decreases_to!(*f => f.representation));
        }
        let copy = NativeField {
            name: f.name.clone(),
            offset: f.offset,
            count: f.count,
            representation: clone_representation(&f.representation),
        };
        assert(field_model(copy) == field_model(*f));
        fields.push(copy);
        i = i + 1;
    }
    let c = NativeRepresentation {
        name: r.name.clone(),
        revision: r.revision,
        size: r.size,
        alignment: r.alignment,
        byte_order: r.byte_order,
        fields,
    };
    proof {
        lemma_representation_model(c);
        assert(c@.fields =~= r@.fields);
    }
    c
}

impl Clone for NativeRepresentation {
    fn clone(&self) -> (c: NativeRepresentation)
        ensures
            c@ == self@,
    {
        clone_representation(self)
    }
}

impl Clone for NativeField {
    fn clone(&self) -> (c: NativeField)
        ensures
            c@ == self@,
    {
        NativeField {
            name: self.name.clone(),
            offset: self.offset,
            count: self.count,
            representation: clone_representation(&self.representation),
        }
    }
}

impl PartialEq for NativeRepresentation {
    fn eq(&self, other: &NativeRepresentation) -> (r: bool) {
        representation_eq(self, other)
    }
}

impl vstd::std_specs::cmp::PartialEqSpecImpl for NativeRepresentation {
    open spec fn obeys_eq_spec() -> bool {
        true
    }

    open spec fn eq_spec(&self, other: &NativeRepresentation) -> bool {
        self@ == other@
    }
}

impl Eq for NativeRepresentation {}

// ---------------------------------------------------------------------------
// Checked construction
// ---------------------------------------------------------------------------

/// Whether `n` is a power of two.
pub open spec fn is_power_of_two(n: u64) -> bool {
    exists|k: u64| k < 64 && n == #[trigger] (1u64 << k)
}

/// Whether `a` is a multiple of `b` (only 0 is a multiple of 0).
pub open spec fn multiple_of(a: u64, b: u64) -> bool {
    if b == 0 { a == 0 } else { a % b == 0 }
}

/// The end of the byte range of field `f`: offset plus element size times count.
pub open spec fn field_end(f: FieldModel) -> int {
    f.offset + f.representation.size * f.count
}

/// The check of field `i` against the fields before it and the enclosing
/// size and alignment: the message of the first rule it breaks.
pub open spec fn field_error(fields: Seq<FieldModel>, i: int, size: u64, alignment: u64) -> Option<Seq<char>> {
    let f = fields[i];
    if f.name.len() == 0 || exists|j: int| 0 <= j < i && #[trigger] fields[j].name == f.name {
        Some("empty or duplicate field name"@)
    } else if field_end(f) > u64::MAX {
        Some("field size overflow"@)
    } else if field_end(f) > size || f.representation.alignment > alignment
        || !multiple_of(f.offset, f.representation.alignment) {
        Some("field is out of bounds or misaligned"@)
    } else {
        None
    }
}

/// The first failing field check among the first `n` fields.
pub open spec fn first_field_error(fields: Seq<FieldModel>, n: nat, size: u64, alignment: u64) -> Option<Seq<char>>
    decreases n,
{
    if n == 0 {
        None
    } else {
        match first_field_error(fields, (n - 1) as nat, size, alignment) {
            Some(e) => Some(e),
            None => field_error(fields, n - 1, size, alignment),
        }
    }
}

/// Whether two nonempty field ranges overlap.
pub open spec fn ranges_overlap(fields: Seq<FieldModel>) -> bool {
    exists|i: int, j: int|
        0 <= i < fields.len() && 0 <= j < fields.len() && i != j
            && field_end(#[trigger] fields[i]) != fields[i].offset
            && field_end(#[trigger] fields[j]) != fields[j].offset
            && fields[i].offset < field_end(fields[j]) && fields[j].offset < field_end(fields[i])
}

/// The message of the first rule that a representation with these parts
/// breaks: an empty name, an alignment that is not a power of two, a size
/// that is not a multiple of the alignment, a bad field, overlapping fields.
pub open spec fn descriptor_error(name: Seq<char>, size: u64, alignment: u64, fields: Seq<FieldModel>) -> Option<Seq<char>> {
    if name.len() == 0 || !is_power_of_two(alignment) || !multiple_of(size, alignment) {
        Some("invalid name, size or alignment"@)
    } else if first_field_error(fields, fields.len(), size, alignment) is Some {
        first_field_error(fields, fields.len(), size, alignment)
    } else if ranges_overlap(fields) {
        Some("overlapping fields"@)
    } else {
        None
    }
}

fn is_power_of_two_exec(n: u64) -> (b: bool)
    ensures
        b == is_power_of_two(n),
{
    let mut k: u64 = 0;
    while k < 64
        invariant
            k <= 64,
            forall|j: u64| j < k ==> n != #[trigger] (1u64 << j),
        decreases 64 - k,
    {
        if n == 1u64 << k {
            return true;
        }
        k = k + 1;
    }
    false
}

fn multiple_of_exec(a: u64, b: u64) -> (r: bool)
    ensures
        r == multiple_of(a, b),
{
    if b == 0 { a == 0 } else { a % b == 0 }
}

/// Checks field `i` against the fields before it; returns its range end.
fn check_field(fields: &Vec<NativeField>, i: usize, size: u64, alignment: u64) -> (r: Result<u64, &'static str>)
    requires
        i < fields@.len(),
    ensures
        ({
            let ms = fields@.map_values(|f: NativeField| field_model(f));
            &&& r is Ok <==> field_error(ms, i as int, size, alignment) is None
            &&& r matches Ok(end) ==> end == field_end(ms[i as int])
            &&& r matches Err(msg) ==> field_error(ms, i as int, size, alignment) == Some(msg@)
        }),
{
    let ghost ms = fields@.map_values(|f: NativeField| field_model(f));
    let f = &fields[i];
    proof {
        lemma_representation_model(f.representation);
    }
    assert(ms[i as int] == field_model(*f));
    if f.name.as_str().unicode_len() == 0 {
        return Err("empty or duplicate field name");
    }
    let mut j: usize = 0;
    while j < i
        invariant
            i < fields@.len(),
            ms == fields@.map_values(|f: NativeField| field_model(f)),
            f == fields@[i as int],
            j <= i,
            forall|k: int| 0 <= k < j ==> ms[k].name != ms[i as int].name,
        decreases i - j,
    {
        if str_eq(fields[j].name.as_str(), f.name.as_str()) {
            assert(ms[j as int].name == ms[i as int].name);
            return Err("empty or duplicate field name");
        }
        j = j + 1;
    }
    let end = match f.representation.size.checked_mul(f.count) {
        Some(len) => match f.offset.checked_add(len) {
            Some(end) => end,
            None => return Err("field size overflow"),
        },
        None => {
            assert(f.representation.size * f.count > u64::MAX);
            return Err("field size overflow");
        },
    };
    if end > size || f.representation.alignment > alignment || !multiple_of_exec(f.offset, f.representation.alignment) {
        return Err("field is out of bounds or misaligned");
    }
    Ok(end)
}

/// Whether two of the fields have overlapping nonempty ranges, given their ends.
fn any_overlap(fields: &Vec<NativeField>, ends: &Vec<u64>) -> (b: bool)
    requires
        ends@.len() == fields@.len(),
        forall|k: int| 0 <= k < fields@.len() ==> ends@[k] == field_end(#[trigger] field_model(fields@[k])),
    ensures
        b == ranges_overlap(fields@.map_values(|f: NativeField| field_model(f))),
{
    let ghost ms = fields@.map_values(|f: NativeField| field_model(f));
    let n = fields.len();
    let mut i: usize = 0;
    while i < n
        invariant
            n == fields@.len(),
            ends@.len() == n,
            ms == fields@.map_values(|f: NativeField| field_model(f)),
            forall|k: int| 0 <= k < n ==> ends@[k] == field_end(#[trigger] field_model(fields@[k])),
            i <= n,
            forall|a: int, b: int| 0 <= a < i && 0 <= b < n && a != b ==> !(
                field_end(ms[a]) != ms[a].offset && field_end(ms[b]) != ms[b].offset
                && ms[a].offset < field_end(ms[b]) && ms[b].offset < field_end(ms[a])),
        decreases n - i,
    {
        let mut j: usize = 0;
        while j < n
            invariant
                n == fields@.len(),
                ends@.len() == n,
                ms == fields@.map_values(|f: NativeField| field_model(f)),
                forall|k: int| 0 <= k < n ==> ends@[k] == field_end(#[trigger] field_model(fields@[k])),
                i < n,
                j <= n,
                forall|b: int| 0 <= b < j && i != b ==> !(
                    field_end(ms[i as int]) != ms[i as int].offset && field_end(ms[b]) != ms[b].offset
                    && ms[i as int].offset < field_end(ms[b]) && ms[b].offset < field_end(ms[i as int])),
            decreases n - j,
        {
            assert(ends@[i as int] == field_end(ms[i as int]));
            assert(ends@[j as int] == field_end(ms[j as int]));
            if i != j && ends[i] != fields[i].offset && ends[j] != fields[j].offset
                && fields[i].offset < ends[j] && fields[j].offset < ends[i] {
                assert(ms[i as int].offset == fields@[i as int].offset);
                assert(ms[j as int].offset == fields@[j as int].offset);
                assert(ranges_overlap(ms)) by {
                    assert(field_end(ms[i as int]) != ms[i as int].offset);
                    assert(field_end(ms[j as int]) != ms[j as int].offset);
                }
                return true;
            }
            assert(ms[i as int].offset == fields@[i as int].offset);
            assert(ms[j as int].offset == fields@[j as int].offset);
            j = j + 1;
        }
        i = i + 1;
    }
    assert(!ranges_overlap(ms)) by {
        if ranges_overlap(ms) {
            let (a, b) = choose|a: int, b: int|
                0 <= a < ms.len() && 0 <= b < ms.len() && a != b
                    && field_end(#[trigger] ms[a]) != ms[a].offset
                    && field_end(#[trigger] ms[b]) != ms[b].offset
                    && ms[a].offset < field_end(ms[b]) && ms[b].offset < field_end(ms[a]);
            assert(false);
        }
    }
    false
}

impl NativeField {
    /// Describes a single field at a byte offset. The enclosing
    /// representation checks bounds, alignment, overlap and duplicate names.
    pub fn new(name: &str, offset: u64, representation: NativeRepresentation) -> (f: NativeField)
        ensures
            f@ == (FieldModel { name: name@, offset, count: 1, representation: representation@ }),
    {
        NativeField { name: name.to_string(), offset, count: 1, representation }
    }

    /// Describes `count` repeated elements (a zero-length array included).
    pub fn repeated(name: &str, offset: u64, count: u64, representation: NativeRepresentation) -> (f: NativeField)
        ensures
            f@ == (FieldModel { name: name@, offset, count, representation: representation@ }),
    {
        NativeField { name: name.to_string(), offset, count, representation }
    }
}

impl NativeRepresentation {
    /// Checks and constructs a scalar, struct or array representation.
    ///
    /// Fails with `InvalidDescriptor` for an empty name, an alignment that is
    /// not a power of two, a size that is not a multiple of the alignment, an
    /// empty or duplicate field name, an overflowing, out-of-bounds or
    /// misaligned field, or overlapping nonempty fields (checked in that
    /// order, field by field).
    pub fn new(name: &str, revision: u32, size: u64, alignment: u64, byte_order: NativeByteOrder, fields: Vec<NativeField>) -> (r: Result<NativeRepresentation, NativeProfileError>)
        ensures
            ({
                let ms = fields@.map_values(|f: NativeField| field_model(f));
                &&& r is Ok <==> descriptor_error(name@, size, alignment, ms) is None
                &&& r matches Ok(x) ==> x@ == (RepresentationModel { name: name@, revision, size, alignment, byte_order, fields: ms })
                &&& r matches Err(e) ==> e matches NativeProfileError::InvalidDescriptor(msg)
                    && descriptor_error(name@, size, alignment, ms) == Some(msg@)
            }),
    {
        let ghost ms = fields@.map_values(|f: NativeField| field_model(f));
        if name.unicode_len() == 0 || !is_power_of_two_exec(alignment) || !multiple_of_exec(size, alignment) {
            return Err(NativeProfileError::InvalidDescriptor("invalid name, size or alignment"));
        }
        let n = fields.len();
        let mut ends: Vec<u64> = Vec::new();
        let mut i: usize = 0;
        while i < n
            invariant
                n == fields@.len(),
                ms == fields@.map_values(|f: NativeField| field_model(f)),
                name@.len() > 0,
                is_power_of_two(alignment),
                multiple_of(size, alignment),
                i <= n,
                ends@.len() == i,
                first_field_error(ms, i as nat, size, alignment) is None,
                forall|k: int| 0 <= k < i ==> ends@[k] == field_end(#[trigger] field_model(fields@[k])),
            decreases n - i,
        {
            match check_field(&fields, i, size, alignment) {
                Ok(end) => {
                    ends.push(end);
                },
                Err(msg) => {
                    assert(first_field_error(ms, (i + 1) as nat, size, alignment) == Some(msg@));
                    proof {
                        lemma_first_field_error_sticks(ms, (i + 1) as nat, n as nat, size, alignment);
                    }
                    assert(ms.len() == n);
                    assert(first_field_error(ms, ms.len(), size, alignment) == Some(msg@));
                    return Err(NativeProfileError::InvalidDescriptor(msg));
                },
            }
            i = i + 1;
        }
        if any_overlap(&fields, &ends) {
            return Err(NativeProfileError::InvalidDescriptor("overlapping fields"));
        }
        let r = NativeRepresentation { name: name.to_string(), revision, size, alignment, byte_order, fields };
        proof {
            lemma_representation_model(r);
        }
        Ok(r)
    }

    /// Returns the deployment-stable type name.
    pub fn name(&self) -> (s: &str)
        ensures
            s@ == self@.name,
    {
        self.name.as_str()
    }

    /// Returns the complete object size in bytes, padding included.
    pub fn size(&self) -> (n: u64)
        ensures
            n == self@.size,
    {
        self.size
    }

    /// Returns the required address alignment in bytes.
    pub fn alignment(&self) -> (n: u64)
        ensures
            n == self@.alignment,
    {
        self.alignment
    }
}

/// Once a field check fails, the first failure stays the same.
proof fn lemma_first_field_error_sticks(fields: Seq<FieldModel>, i: nat, n: nat, size: u64, alignment: u64)
    requires
        i <= n,
        first_field_error(fields, i, size, alignment) is Some,
    ensures
        first_field_error(fields, n, size, alignment) == first_field_error(fields, i, size, alignment),
    decreases n - i,
{
    if i < n {
        lemma_first_field_error_sticks(fields, i, (n - 1) as nat, size, alignment);
    }
}

// ---------------------------------------------------------------------------
// Structural tokens
// ---------------------------------------------------------------------------

/// The SHA-256 digest of `bytes`.
pub uninterp spec fn sha256(bytes: Seq<u8>) -> Seq<u8>;

/// `sha2::Sha256::digest`: the 32-byte SHA-256 digest of `bytes`. The
/// contract claims only that the digest is a function of the bytes alone
/// (named [`sha256`]); the hash function itself is not restated.
#[verifier::external_body]
fn sha256_digest(bytes: &[u8]) -> (d: [u8; 32])
    ensures
        d@ == sha256(bytes@),
{
    sha2::Sha256::digest(bytes).into()
}

/// The token held by a digest: its first four bytes, little-endian.
pub open spec fn token_of_digest(digest: Seq<u8>) -> NativeTypeToken {
    NativeTypeToken(spec_u32_from_le_bytes(digest.take(4)))
}

/// The structural token of representation `r`: the first four bytes of the
/// SHA-256 digest of its canonical bytes, little-endian.
pub open spec fn representation_token(r: RepresentationModel) -> NativeTypeToken {
    token_of_digest(sha256(canonical_representation_bytes(r)))
}

/// Derives a token from a 32-byte digest: its first four bytes, little-endian.
pub fn token_from_digest(digest: &[u8; 32]) -> (t: NativeTypeToken)
    ensures
        t == token_of_digest(digest@),
{
    let all = digest.as_slice();
    let first = &all[0..4];
    assert(first@ =~= digest@.take(4));
    NativeTypeToken(u32_from_le_bytes(first))
}

impl NativeRepresentation {
    /// Derives the structural token: the first four bytes of the SHA-256
    /// digest of the canonical bytes, little-endian. Tables reject token
    /// collisions and keep the full descriptors.
    pub fn token(&self) -> (t: NativeTypeToken)
        ensures
            t == representation_token(self@),
    {
        let bytes = self.canonical_bytes();
        let digest = sha256_digest(bytes.as_slice());
        token_from_digest(&digest)
    }
}

// ---------------------------------------------------------------------------
// Payload identities and private-id tables
// ---------------------------------------------------------------------------

/// One checked native payload identity within a deployment profile.
#[derive(Clone, Debug, PartialEq, Eq)]
pub struct NativePayloadIdentity {
    encoding: PayloadEncoding,
    token: NativeTypeToken,
}

impl NativePayloadIdentity {
    /// The deployment-assigned encoding, or the explicit id zero.
    pub closed spec fn spec_encoding(&self) -> PayloadEncodingModel {
        self.encoding@
    }

    /// The structural type token.
    pub closed spec fn spec_token(&self) -> NativeTypeToken {
        self.token
    }

    /// Returns the deployment-assigned encoding, or the explicit id zero.
    pub fn encoding(&self) -> (e: PayloadEncoding)
        ensures
            e@ == self.spec_encoding(),
    {
        self.encoding.clone()
    }

    /// Returns the independent structural type token.
    pub fn token(&self) -> (t: NativeTypeToken)
        ensures
            t == self.spec_token(),
    {
        self.token
    }
}

/// The abstract value of a table entry.
pub open spec fn entry_model(e: (PayloadEncoding, NativeRepresentation)) -> (PayloadEncodingModel, RepresentationModel) {
    (e.0@, e.1@)
}

/// Whether `e` is a private-use allocation (`0xF000..=0xFFFF`).
pub open spec fn is_private(e: PayloadEncodingModel) -> bool {
    e.registry_id is Some && 0xF000 <= e.registry_id.unwrap() <= 0xFFFF
}

/// The registry id of a table entry.
pub open spec fn entry_id(e: (PayloadEncodingModel, RepresentationModel)) -> int {
    e.0.registry_id.unwrap() as int
}

/// A well-formed table: private-use allocations in strictly ascending id order.
pub open spec fn table_wf(t: Seq<(PayloadEncodingModel, RepresentationModel)>) -> bool {
    &&& forall|i: int| 0 <= i < t.len() ==> is_private(#[trigger] t[i].0)
    &&& forall|i: int, j: int| 0 <= i < j < t.len() ==> entry_id(#[trigger] t[i]) < entry_id(#[trigger] t[j])
}

/// The rule that table entry `i` breaks against the entries before it.
pub enum TableEntryFault {
    NonPrivate,
    Duplicate,
    Collision,
}

/// The first rule that entry `i` breaks: a non-private allocation, an id
/// already allocated, a token already taken.
pub open spec fn entry_fault(ms: Seq<(PayloadEncodingModel, RepresentationModel)>, i: int) -> Option<TableEntryFault> {
    if !is_private(ms[i].0) {
        Some(TableEntryFault::NonPrivate)
    } else if exists|j: int| 0 <= j < i && (#[trigger] ms[j]).0.registry_id == ms[i].0.registry_id {
        Some(TableEntryFault::Duplicate)
    } else if exists|j: int| 0 <= j < i && representation_token((#[trigger] ms[j]).1) == representation_token(ms[i].1) {
        Some(TableEntryFault::Collision)
    } else {
        None
    }
}

/// The index of the first faulty entry among the first `n`.
pub open spec fn first_faulty_entry(ms: Seq<(PayloadEncodingModel, RepresentationModel)>, n: nat) -> Option<int>
    decreases n,
{
    if n == 0 {
        None
    } else {
        match first_faulty_entry(ms, (n - 1) as nat) {
            Some(k) => Some(k),
            None => if entry_fault(ms, n - 1) is Some { Some(n - 1) } else { None },
        }
    }
}

proof fn lemma_first_faulty_entry(ms: Seq<(PayloadEncodingModel, RepresentationModel)>, n: nat)
    ensures
        first_faulty_entry(ms, n) is None ==> forall|i: int| 0 <= i < n ==> entry_fault(ms, i) is None,
        first_faulty_entry(ms, n) matches Some(k) ==> 0 <= k < n && entry_fault(ms, k) is Some,
    decreases n,
{
    if n > 0 {
        lemma_first_faulty_entry(ms, (n - 1) as nat);
    }
}

proof fn lemma_first_faulty_entry_sticks(ms: Seq<(PayloadEncodingModel, RepresentationModel)>, i: nat, n: nat)
    requires
        i <= n,
        first_faulty_entry(ms, i) is Some,
    ensures
        first_faulty_entry(ms, n) == first_faulty_entry(ms, i),
    decreases n - i,
{
    if i < n {
        lemma_first_faulty_entry_sticks(ms, i, (n - 1) as nat);
    }
}

/// Immutable private-id allocations for complete native representations,
/// in ascending id order.
#[derive(Debug, PartialEq, Eq)]
pub struct NativeProfileTable {
    entries: Vec<(PayloadEncoding, NativeRepresentation)>,
}

impl View for NativeProfileTable {
    type V = Seq<(PayloadEncodingModel, RepresentationModel)>;

    closed spec fn view(&self) -> Seq<(PayloadEncodingModel, RepresentationModel)> {
        self.entries@.map_values(|e: (PayloadEncoding, NativeRepresentation)| entry_model(e))
    }
}

fn entry_id_exec(e: &(PayloadEncoding, NativeRepresentation)) -> (id: u32)
    requires
        is_private(entry_model(*e).0),
    ensures
        id == entry_id(entry_model(*e)),
{
    match e.0.registry_id() {
        Some(id) => id,
        None => 0,
    }
}

/// Moves the entries into ascending id order (selection of the least id).
fn sort_by_id(entries: Vec<(PayloadEncoding, NativeRepresentation)>) -> (t: Vec<(PayloadEncoding, NativeRepresentation)>)
    requires
        ({
            let ms = entries@.map_values(|e: (PayloadEncoding, NativeRepresentation)| entry_model(e));
            &&& forall|i: int| 0 <= i < ms.len() ==> is_private(#[trigger] ms[i].0)
            &&& forall|i: int, j: int| 0 <= i < ms.len() && 0 <= j < ms.len() && i != j
                ==> entry_id(#[trigger] ms[i]) != entry_id(#[trigger] ms[j])
        }),
    ensures
        ({
            let ms = entries@.map_values(|e: (PayloadEncoding, NativeRepresentation)| entry_model(e));
            let ts = t@.map_values(|e: (PayloadEncoding, NativeRepresentation)| entry_model(e));
            table_wf(ts) && ts.to_multiset() == ms.to_multiset()
        }),
{
    broadcast use vstd::multiset::group_multiset_axioms, vstd::seq_lib::group_to_multiset_ensures;
    let ghost ms = entries@.map_values(|e: (PayloadEncoding, NativeRepresentation)| entry_model(e));
    let mut remaining = entries;
    let mut result: Vec<(PayloadEncoding, NativeRepresentation)> = Vec::new();
    let ghost mut rem_idx: Seq<int> = Seq::new(ms.len(), |i: int| i);
    proof {
        assert(remaining@.map_values(|e: (PayloadEncoding, NativeRepresentation)| entry_model(e)) == ms);
        assert(result@.map_values(|e: (PayloadEncoding, NativeRepresentation)| entry_model(e)) =~= Seq::<(PayloadEncodingModel, RepresentationModel)>::empty());
        assert(Seq::<(PayloadEncodingModel, RepresentationModel)>::empty().to_multiset() =~= Multiset::empty());
    }
    while remaining.len() > 0
        invariant
            forall|i: int| 0 <= i < ms.len() ==> is_private(#[trigger] ms[i].0),
            forall|i: int, j: int| 0 <= i < ms.len() && 0 <= j < ms.len() && i != j
                ==> entry_id(#[trigger] ms[i]) != entry_id(#[trigger] ms[j]),
            ({
                let rm = remaining@.map_values(|e: (PayloadEncoding, NativeRepresentation)| entry_model(e));
                let rs = result@.map_values(|e: (PayloadEncoding, NativeRepresentation)| entry_model(e));
                &&& rem_idx.len() == rm.len()
                &&& forall|k: int| 0 <= k < rm.len() ==> 0 <= #[trigger] rem_idx[k] < ms.len() && rm[k] == ms[rem_idx[k]]
                &&& forall|a: int, b: int| 0 <= a < rm.len() && 0 <= b < rm.len() && a != b ==> rem_idx[a] != rem_idx[b]
                &&& table_wf(rs)
                &&& forall|a: int, b: int| 0 <= a < rs.len() && 0 <= b < rm.len() ==> entry_id(#[trigger] rs[a]) < entry_id(#[trigger] rm[b])
                &&& rs.to_multiset().add(rm.to_multiset()) == ms.to_multiset()
            }),
        decreases remaining.len(),
    {
        let ghost rm = remaining@.map_values(|e: (PayloadEncoding, NativeRepresentation)| entry_model(e));
        let ghost rs = result@.map_values(|e: (PayloadEncoding, NativeRepresentation)| entry_model(e));
        let n = remaining.len();
        let mut k: usize = 0;
        let mut j: usize = 1;
        assert forall|q: int| 0 <= q < rm.len() implies is_private(#[trigger] rm[q].0) by {
            assert(rm[q] == ms[rem_idx[q]]);
        }
        while j < n
            invariant
                n == remaining@.len(),
                rm == remaining@.map_values(|e: (PayloadEncoding, NativeRepresentation)| entry_model(e)),
                forall|q: int| 0 <= q < rm.len() ==> is_private(#[trigger] rm[q].0),
                k < n,
                1 <= j <= n,
                forall|a: int| 0 <= a < j ==> entry_id(rm[k as int]) <= entry_id(#[trigger] rm[a]),
            decreases n - j,
        {
            assert(rm[j as int] == entry_model(remaining@[j as int]));
            assert(rm[k as int] == entry_model(remaining@[k as int]));
            if entry_id_exec(&remaining[j]) < entry_id_exec(&remaining[k]) {
                k = j;
            }
            j = j + 1;
        }
        let ghost x = rm[k as int];
        let ghost old_idx = rem_idx;
        let item = remaining.remove(k);
        result.push(item);
        proof {
            let rm2 = remaining@.map_values(|e: (PayloadEncoding, NativeRepresentation)| entry_model(e));
            let rs2 = result@.map_values(|e: (PayloadEncoding, NativeRepresentation)| entry_model(e));
            assert(rm2 =~= rm.remove(k as int));
            assert(rs2 =~= rs.push(x));
            rem_idx = rem_idx.remove(k as int);
            assert forall|b: int| 0 <= b < rm2.len() implies entry_id(x) < entry_id(#[trigger] rm2[b]) by {
                let ob = if b < k { b } else { b + 1 };
                assert(rm2[b] == rm[ob]);
                assert(ob != k);
                assert(entry_id(x) <= entry_id(rm[ob]));
                assert(old_idx[ob] != old_idx[k as int]);
                assert(rm[ob] == ms[old_idx[ob]]);
                assert(x == ms[old_idx[k as int]]);
                assert(entry_id(ms[old_idx[ob]]) != entry_id(ms[old_idx[k as int]]));
            }
            vstd::seq_lib::to_multiset_remove(rm, k as int);
            vstd::seq_lib::to_multiset_build(rs, x);
            assert(rm[k as int] == x);
            assert(rm.contains(x));
            vstd::seq_lib::to_multiset_contains(rm, x);
            assert(rm.to_multiset().count(x) > 0);
            assert(rs2.to_multiset() == rs.to_multiset().insert(x));
            assert(rm2.to_multiset() == rm.to_multiset().remove(x));
            assert(rs2.to_multiset().add(rm2.to_multiset()) =~= rs.to_multiset().add(rm.to_multiset()));
        }
    }
    proof {
        let rm = remaining@.map_values(|e: (PayloadEncoding, NativeRepresentation)| entry_model(e));
        assert(rm =~= Seq::<(PayloadEncodingModel, RepresentationModel)>::empty());
        assert(rm.to_multiset() =~= Multiset::empty());
    }
    result
}

impl NativeProfileTable {
    /// Well-formed: private-use allocations in strictly ascending id order.
    #[verifier::type_invariant]
    spec fn inv(self) -> bool {
        table_wf(self@)
    }

    /// Checks a deployment table without assigning, truncating or guessing
    /// ids, and keeps its entries in ascending id order.
    ///
    /// Fails at the first entry (in the given order) that allocates outside
    /// the private-use range (`NonPrivateEncoding`), reuses an id
    /// (`DuplicateEncoding`) or shares its 32-bit token with an earlier entry
    /// (`TokenCollision`, even when the full representations differ).
    pub fn new(entries: Vec<(PayloadEncoding, NativeRepresentation)>) -> (r: Result<NativeProfileTable, NativeProfileError>)
        ensures
            ({
                let ms = entries@.map_values(|e: (PayloadEncoding, NativeRepresentation)| entry_model(e));
                let bad = first_faulty_entry(ms, ms.len());
                &&& r is Ok <==> bad is None
                &&& r matches Ok(t) ==> t@.to_multiset() == ms.to_multiset()
                &&& r matches Err(e) ==> match entry_fault(ms, bad.unwrap()).unwrap() {
                    TableEntryFault::NonPrivate => (e matches NativeProfileError::NonPrivateEncoding(enc) && enc@ == ms[bad.unwrap()].0),
                    TableEntryFault::Duplicate => (e matches NativeProfileError::DuplicateEncoding(enc) && enc@ == ms[bad.unwrap()].0),
                    TableEntryFault::Collision => e == NativeProfileError::TokenCollision(representation_token(ms[bad.unwrap()].1)),
                }
            }),
    {
        let ghost ms = entries@.map_values(|e: (PayloadEncoding, NativeRepresentation)| entry_model(e));
        let n = entries.len();
        let mut tokens: Vec<NativeTypeToken> = Vec::new();
        let mut i: usize = 0;
        while i < n
            invariant
                n == entries@.len(),
                ms == entries@.map_values(|e: (PayloadEncoding, NativeRepresentation)| entry_model(e)),
                i <= n,
                tokens@.len() == i,
                forall|k: int| 0 <= k < i ==> tokens@[k] == representation_token(#[trigger] ms[k].1),
                first_faulty_entry(ms, i as nat) is None,
            decreases n - i,
        {
            let entry = &entries[i];
            assert(ms[i as int] == entry_model(*entry));
            if !entry.0.is_private_use() {
                assert(entry_fault(ms, i as int) == Some(TableEntryFault::NonPrivate));
                proof { lemma_first_faulty_entry_sticks(ms, (i + 1) as nat, n as nat); }
                return Err(NativeProfileError::NonPrivateEncoding(entry.0.clone()));
            }
            let mut j: usize = 0;
            while j < i
                invariant
                    n == entries@.len(),
                    ms == entries@.map_values(|e: (PayloadEncoding, NativeRepresentation)| entry_model(e)),
                    i < n,
                    entry == entries@[i as int],
                    is_private(ms[i as int].0),
                    first_faulty_entry(ms, i as nat) is None,
                    j <= i,
                    forall|q: int| 0 <= q < j ==> (#[trigger] ms[q]).0.registry_id != ms[i as int].0.registry_id,
                decreases i - j,
            {
                assert(ms[j as int] == entry_model(entries@[j as int]));
                if entries[j].0.registry_id() == entry.0.registry_id() {
                    assert(entry_fault(ms, i as int) == Some(TableEntryFault::Duplicate));
                    proof { lemma_first_faulty_entry_sticks(ms, (i + 1) as nat, n as nat); }
                    return Err(NativeProfileError::DuplicateEncoding(entry.0.clone()));
                }
                j = j + 1;
            }
            let token = entry.1.token();
            let mut j: usize = 0;
            while j < i
                invariant
                    n == entries@.len(),
                    ms == entries@.map_values(|e: (PayloadEncoding, NativeRepresentation)| entry_model(e)),
                    i < n,
                    entry == entries@[i as int],
                    token == representation_token(ms[i as int].1),
                    tokens@.len() == i,
                    forall|k: int| 0 <= k < i ==> tokens@[k] == representation_token(#[trigger] ms[k].1),
                    forall|q: int| 0 <= q < i ==> (#[trigger] ms[q]).0.registry_id != ms[i as int].0.registry_id,
                    is_private(ms[i as int].0),
                    first_faulty_entry(ms, i as nat) is None,
                    j <= i,
                    forall|q: int| 0 <= q < j ==> representation_token((#[trigger] ms[q]).1) != token,
                decreases i - j,
            {
                if tokens[j] == token {
                    assert(representation_token(ms[j as int].1) == token);
                    assert(entry_fault(ms, i as int) == Some(TableEntryFault::Collision));
                    proof { lemma_first_faulty_entry_sticks(ms, (i + 1) as nat, n as nat); }
                    return Err(NativeProfileError::TokenCollision(token));
                }
                j = j + 1;
            }
            assert(entry_fault(ms, i as int) is None);
            tokens.push(token);
            i = i + 1;
        }
        proof {
            lemma_first_faulty_entry(ms, n as nat);
            assert forall|a: int| 0 <= a < ms.len() implies is_private(#[trigger] ms[a].0) by {
                assert(entry_fault(ms, a) is None);
            }
            assert forall|a: int, b: int| 0 <= a < ms.len() && 0 <= b < ms.len() && a != b
                implies entry_id(#[trigger] ms[a]) != entry_id(#[trigger] ms[b]) by {
                let (lo, hi) = if a < b { (a, b) } else { (b, a) };
                assert(entry_fault(ms, hi) is None);
                assert(entry_fault(ms, lo) is None);
                assert(is_private(ms[lo].0));
                assert(ms[lo].0.registry_id != ms[hi].0.registry_id);
            }
        }
        let sorted = sort_by_id(entries);
        Ok(NativeProfileTable { entries: sorted })
    }

    /// Returns the allocations in ascending id order.
    pub fn entries(&self) -> (v: &[(PayloadEncoding, NativeRepresentation)])
        ensures
            v@.map_values(|e: (PayloadEncoding, NativeRepresentation)| entry_model(e)) == self@,
            table_wf(self@),
    {
        proof { use_type_invariant(self); }
        self.entries.as_slice()
    }
}

impl Clone for NativeProfileTable {
    fn clone(&self) -> (c: NativeProfileTable)
        ensures
            c@ == self@,
    {
        proof { use_type_invariant(self); }
        let n = self.entries.len();
        let mut entries: Vec<(PayloadEncoding, NativeRepresentation)> = Vec::new();
        let mut i: usize = 0;
        while i < n
            invariant
                n == self.entries@.len(),
                i <= n,
                entries@.len() == i,
                forall|j: int| 0 <= j < i ==> entry_model(#[trigger] entries@[j]) == entry_model(self.entries@[j]),
            decreases n - i,
        {
            let e = &self.entries[i];
            entries.push((e.0.clone(), e.1.clone()));
            i = i + 1;
        }
        let ghost copied = entries@.map_values(|e: (PayloadEncoding, NativeRepresentation)| entry_model(e));
        assert(copied =~= self@);
        NativeProfileTable { entries }
    }
}

// ---------------------------------------------------------------------------
// Contracts, profiles and agreements
// ---------------------------------------------------------------------------

/// Typed operation or subscription contract, used explicitly with encoding id zero.
#[derive(Clone, Debug, PartialEq, Eq)]
pub struct NativeContract {
    operation: String,
    representation: NativeRepresentation,
}

impl View for NativeContract {
    type V = (Seq<char>, RepresentationModel);

    closed spec fn view(&self) -> (Seq<char>, RepresentationModel) {
        (self.operation@, self.representation@)
    }
}

impl NativeContract {
    /// Associates one exact representation with a deployment operation.
    ///
    /// Fails with `InvalidProfile` for an empty operation identity.
    pub fn new(operation: &str, representation: NativeRepresentation) -> (r: Result<NativeContract, NativeProfileError>)
        ensures
            r is Ok <==> operation@.len() > 0,
            r matches Ok(c) ==> c@ == (operation@, representation@),
            r matches Err(e) ==> e == NativeProfileError::InvalidProfile("empty operation contract"),
    {
        if operation.unicode_len() == 0 {
            return Err(NativeProfileError::InvalidProfile("empty operation contract"));
        }
        Ok(NativeContract { operation: operation.to_string(), representation })
    }

    /// Returns the operation or subscription contract identity.
    pub fn operation(&self) -> (s: &str)
        ensures
            s@ == self@.0,
    {
        self.operation.as_str()
    }
}

/// Abstract value of a [`NativeProfileMode`].
pub ghost enum ProfileModeModel {
    Table(Seq<(PayloadEncodingModel, RepresentationModel)>),
    ContractDefined(Seq<char>, RepresentationModel),
}

/// Explicit deployment mode; there is no fallback from a table to id zero.
#[derive(Clone, Debug, PartialEq, Eq)]
pub enum NativeProfileMode {
    /// Private encoding ids identify full native representations.
    Table(NativeProfileTable),
    /// An explicit operation contract defines the representation for id zero.
    ContractDefined(NativeContract),
}

impl View for NativeProfileMode {
    type V = ProfileModeModel;

    open spec fn view(&self) -> ProfileModeModel {
        match self {
            NativeProfileMode::Table(t) => ProfileModeModel::Table(t@),
            NativeProfileMode::ContractDefined(c) => ProfileModeModel::ContractDefined(c@.0, c@.1),
        }
    }
}

/// Abstract value of a [`NativeProfile`].
pub ghost struct ProfileModel {
    pub domain: Seq<char>,
    pub version: u32,
    pub mode: ProfileModeModel,
}

/// Immutable native profile generation, scoped to one deployment domain.
#[derive(Clone, Debug, PartialEq, Eq)]
pub struct NativeProfile {
    domain: String,
    version: u32,
    mode: NativeProfileMode,
}

impl View for NativeProfile {
    type V = ProfileModel;

    closed spec fn view(&self) -> ProfileModel {
        ProfileModel { domain: self.domain@, version: self.version, mode: self.mode@ }
    }
}

/// The entries of a table, each as its u16 id and representation encoding.
pub open spec fn table_bytes(t: Seq<(PayloadEncodingModel, RepresentationModel)>, n: nat) -> Seq<u8>
    decreases n,
{
    if n == 0 || n > t.len() {
        Seq::empty()
    } else {
        table_bytes(t, (n - 1) as nat) + (spec_u16_to_le_bytes(entry_id(t[n - 1]) as u16)
            + representation_bytes(t[n - 1].1))
    }
}

/// The encoding of a profile mode: 1, u64 entry count and the entries in
/// ascending id order for a table; 2, the operation name and the
/// representation for a contract.
pub open spec fn mode_bytes(m: ProfileModeModel) -> Seq<u8> {
    match m {
        ProfileModeModel::Table(t) => seq![1u8] + (spec_u64_to_le_bytes(t.len() as u64) + table_bytes(t, t.len())),
        ProfileModeModel::ContractDefined(op, r) => seq![2u8] + (string_bytes(op) + representation_bytes(r)),
    }
}

/// The canonical agreement bytes of a profile: the domain
/// `uprotocol.native-profile.v1` and a NUL byte, the length-prefixed
/// deployment domain, the u32 version, then the mode.
pub open spec fn canonical_profile_bytes(p: ProfileModel) -> Seq<u8> {
    encode_utf8("uprotocol.native-profile.v1"@).push(0u8) + (string_bytes(p.domain)
        + (spec_u32_to_le_bytes(p.version) + mode_bytes(p.mode)))
}

/// Whether two tables hold the same entries in the same order.
fn tables_eq(a: &NativeProfileTable, b: &NativeProfileTable) -> (r: bool)
    ensures
        r == (a@ == b@),
{
    let ea = a.entries();
    let eb = b.entries();
    if ea.len() != eb.len() {
        assert(a@.len() != b@.len());
        return false;
    }
    let n = ea.len();
    let mut i: usize = 0;
    while i < n
        invariant
            n == ea@.len(),
            n == eb@.len(),
            ea@.map_values(|e: (PayloadEncoding, NativeRepresentation)| entry_model(e)) == a@,
            eb@.map_values(|e: (PayloadEncoding, NativeRepresentation)| entry_model(e)) == b@,
            i <= n,
            forall|j: int| 0 <= j < i ==> a@[j] == b@[j],
        decreases n - i,
    {
        assert(a@[i as int] == entry_model(ea@[i as int]));
        assert(b@[i as int] == entry_model(eb@[i as int]));
        if !ea[i].0.is_compatible_with(&eb[i].0) || !representation_eq(&ea[i].1, &eb[i].1) {
            assert(a@[i as int] != b@[i as int]);
            return false;
        }
        i = i + 1;
    }
    assert(a@ =~= b@);
    true
}

/// Whether two profiles agree exactly: domain, version, mode and the full
/// table or contract content.
pub fn profile_eq(a: &NativeProfile, b: &NativeProfile) -> (r: bool)
    ensures
        r == (a@ == b@),
{
    if !str_eq(a.domain.as_str(), b.domain.as_str()) {
        assert(a@.domain != b@.domain);
        return false;
    }
    if a.version != b.version {
        assert(a@.version != b@.version);
        return false;
    }
    match (&a.mode, &b.mode) {
        (NativeProfileMode::Table(ta), NativeProfileMode::Table(tb)) => tables_eq(ta, tb),
        (NativeProfileMode::ContractDefined(ca), NativeProfileMode::ContractDefined(cb)) => {
            str_eq(ca.operation.as_str(), cb.operation.as_str()) && representation_eq(&ca.representation, &cb.representation)
        },
        _ => false,
    }
}

impl NativeProfile {
    /// Creates a named, explicitly versioned deployment profile.
    ///
    /// Fails with `InvalidProfile` for an empty domain or version zero.
    pub fn new(domain: &str, version: u32, mode: NativeProfileMode) -> (r: Result<NativeProfile, NativeProfileError>)
        ensures
            r is Ok <==> domain@.len() > 0 && version != 0,
            r matches Ok(p) ==> p@ == (ProfileModel { domain: domain@, version, mode: mode@ }),
            r matches Err(e) ==> e == NativeProfileError::InvalidProfile("domain and nonzero version are required"),
    {
        if domain.unicode_len() == 0 || version == 0 {
            return Err(NativeProfileError::InvalidProfile("domain and nonzero version are required"));
        }
        Ok(NativeProfile { domain: domain.to_string(), version, mode })
    }

    /// Returns the deployment domain.
    pub fn domain(&self) -> (s: &str)
        ensures
            s@ == self@.domain,
    {
        self.domain.as_str()
    }

    /// Returns the immutable generation version.
    pub fn version(&self) -> (v: u32)
        ensures
            v == self@.version,
    {
        self.version
    }

    /// Returns the explicitly selected mode.
    pub fn mode(&self) -> (m: &NativeProfileMode)
        ensures
            m@ == self@.mode,
    {
        &self.mode
    }

    /// Returns the canonical agreement bytes, as [`canonical_profile_bytes`]
    /// states: domain, version and mode, table entries in ascending id order.
    pub fn canonical_bytes(&self) -> (v: Vec<u8>)
        ensures
            v@ == canonical_profile_bytes(self@),
    {
        let mut bytes = domain_bytes("uprotocol.native-profile.v1");
        append_string(&mut bytes, self.domain.as_str());
        write_u32(&mut bytes, self.version);
        let ghost head = bytes@;
        match &self.mode {
            NativeProfileMode::Table(table) => {
                bytes.push(1u8);
                let entries = table.entries();
                let n = entries.len();
                write_u64(&mut bytes, n as u64);
                let ghost t = table@;
                let ghost start = bytes@;
                let mut i: usize = 0;
                while i < n
                    invariant
                        n == entries@.len(),
                        entries@.map_values(|e: (PayloadEncoding, NativeRepresentation)| entry_model(e)) == t,
                        table_wf(t),
                        i <= n,
                        bytes@ == start + table_bytes(t, i as nat),
                    decreases n - i,
                {
                    let entry = &entries[i];
                    assert(t[i as int] == entry_model(*entry));
                    let id = entry_id_exec(entry);
                    write_u16_le(&mut bytes, id as u16);
                    entry.1.append_canonical(&mut bytes);
                    assert(bytes@ =~= start + table_bytes(t, (i + 1) as nat));
                    i = i + 1;
                }
                assert(bytes@ =~= head + mode_bytes(self@.mode));
            },
            NativeProfileMode::ContractDefined(contract) => {
                bytes.push(2u8);
                append_string(&mut bytes, contract.operation.as_str());
                contract.representation.append_canonical(&mut bytes);
                assert(bytes@ =~= head + mode_bytes(self@.mode));
            },
        }
        assert(bytes@ =~= canonical_profile_bytes(self@));
        bytes
    }

    /// Returns the full SHA-256 content identity of the canonical bytes, for
    /// deployment evidence.
    pub fn content_digest(&self) -> (d: [u8; 32])
        ensures
            d@ == sha256(canonical_profile_bytes(self@)),
    {
        let bytes = self.canonical_bytes();
        sha256_digest(bytes.as_slice())
    }
}

fn write_u16_le(out: &mut Vec<u8>, v: u16)
    ensures
        final(out)@ == old(out)@ + spec_u16_to_le_bytes(v),
{
    let mut bytes = u16_to_le_bytes(v);
    out.append(&mut bytes);
}

// ---------------------------------------------------------------------------
// Lookups under an agreed mode
// ---------------------------------------------------------------------------

/// Whether index `i` is the first entry of `t` whose representation is `r`.
pub open spec fn first_with_representation(t: Seq<(PayloadEncodingModel, RepresentationModel)>, r: RepresentationModel, i: int) -> bool {
    0 <= i < t.len() && t[i].1 == r && forall|j: int| 0 <= j < i ==> (#[trigger] t[j]).1 != r
}

/// Whether index `i` is the first entry of `t` whose encoding is `e`.
pub open spec fn first_with_encoding(t: Seq<(PayloadEncodingModel, RepresentationModel)>, e: PayloadEncodingModel, i: int) -> bool {
    0 <= i < t.len() && t[i].0 == e && forall|j: int| 0 <= j < i ==> (#[trigger] t[j]).0 != e
}

/// The encoding agreed under mode `m` for representation `r`: the first
/// table allocation of `r`, or id zero for the contract's representation.
pub open spec fn mode_encoding(m: ProfileModeModel, r: RepresentationModel) -> Option<PayloadEncodingModel> {
    match m {
        ProfileModeModel::Table(t) => table_encoding_for(t, r),
        ProfileModeModel::ContractDefined(_, c) => if c == r { Some(encoding_from_id(0)) } else { None },
    }
}

/// The encoding of the first table entry holding representation `r`.
pub open spec fn table_encoding_for(t: Seq<(PayloadEncodingModel, RepresentationModel)>, r: RepresentationModel) -> Option<PayloadEncodingModel> {
    if exists|i: int| #[trigger] first_with_representation(t, r, i) {
        Some(t[choose|i: int| first_with_representation(t, r, i)].0)
    } else {
        None
    }
}

/// The representation agreed under mode `m` for carried encoding `e`: the
/// table allocation of `e`, or the contract's representation for id zero.
pub open spec fn mode_representation(m: ProfileModeModel, e: PayloadEncodingModel) -> Option<RepresentationModel> {
    match m {
        ProfileModeModel::Table(t) => table_representation_for(t, e),
        ProfileModeModel::ContractDefined(_, c) => if e == encoding_from_id(0) { Some(c) } else { None },
    }
}

/// The representation of the first table entry allocated to encoding `e`.
pub open spec fn table_representation_for(t: Seq<(PayloadEncodingModel, RepresentationModel)>, e: PayloadEncodingModel) -> Option<RepresentationModel> {
    if exists|i: int| #[trigger] first_with_encoding(t, e, i) {
        Some(t[choose|i: int| first_with_encoding(t, e, i)].1)
    } else {
        None
    }
}

/// Whether a mode is well formed: a table is private-use and id ordered.
pub open spec fn mode_wf(m: ProfileModeModel) -> bool {
    match m {
        ProfileModeModel::Table(t) => table_wf(t),
        ProfileModeModel::ContractDefined(_, _) => true,
    }
}

/// `Arc::clone`: another pointer to the same allocation, hence the same profile.
#[verifier::external_body]
fn share_profile(p: &Arc<NativeProfile>) -> (r: Arc<NativeProfile>)
    ensures
        r@ == p@,
{
    Arc::clone(p)
}

/// Construction-time agreement between actual loaded peer configurations
/// (not a network handshake). Clones keep the same immutable generation for
/// in-flight work.
#[derive(Debug, PartialEq, Eq)]
pub struct NativeProfileAgreement {
    profile: Arc<NativeProfile>,
}

impl View for NativeProfileAgreement {
    type V = ProfileModel;

    closed spec fn view(&self) -> ProfileModel {
        self.profile@
    }
}

impl Clone for NativeProfileAgreement {
    fn clone(&self) -> (r: NativeProfileAgreement)
        ensures
            r@ == self@,
    {
        NativeProfileAgreement { profile: share_profile(&self.profile) }
    }
}

/// Finds the first table entry holding `representation`.
fn table_find_representation(t: &NativeProfileTable, representation: &NativeRepresentation) -> (r: Option<PayloadEncoding>)
    ensures
        r is Some <==> table_encoding_for(t@, representation@) is Some,
        r matches Some(e) ==> Some(e@) == table_encoding_for(t@, representation@),
{
    let entries = t.entries();
    let n = entries.len();
    let mut i: usize = 0;
    while i < n
        invariant
            n == entries@.len(),
            entries@.map_values(|e: (PayloadEncoding, NativeRepresentation)| entry_model(e)) == t@,
            i <= n,
            forall|j: int| 0 <= j < i ==> (#[trigger] t@[j]).1 != representation@,
        decreases n - i,
    {
        assert(t@[i as int] == entry_model(entries@[i as int]));
        if representation_eq(&entries[i].1, representation) {
            assert(first_with_representation(t@, representation@, i as int));
            proof {
                let k = choose|k: int| first_with_representation(t@, representation@, k);
                assert(k == i) by {
                    if k < i {
                        assert(t@[k].1 != representation@);
                    } else if k > i {
                        assert(t@[i as int].1 != representation@);
                    }
                }
            }
            return Some(entries[i].0.clone());
        }
        i = i + 1;
    }
    None
}

/// Finds the first table entry allocated to `encoding`.
fn table_find_encoding<'a>(t: &'a NativeProfileTable, encoding: &PayloadEncoding) -> (r: Option<&'a NativeRepresentation>)
    ensures
        r is Some <==> table_representation_for(t@, encoding@) is Some,
        r matches Some(x) ==> Some(x@) == table_representation_for(t@, encoding@),
{
    let entries = t.entries();
    let n = entries.len();
    let mut i: usize = 0;
    while i < n
        invariant
            n == entries@.len(),
            entries@.map_values(|e: (PayloadEncoding, NativeRepresentation)| entry_model(e)) == t@,
            i <= n,
            forall|j: int| 0 <= j < i ==> (#[trigger] t@[j]).0 != encoding@,
        decreases n - i,
    {
        assert(t@[i as int] == entry_model(entries@[i as int]));
        if entries[i].0.is_compatible_with(encoding) {
            assert(first_with_encoding(t@, encoding@, i as int));
            proof {
                let k = choose|k: int| first_with_encoding(t@, encoding@, k);
                assert(k == i) by {
                    if k < i {
                        assert(t@[k].0 != encoding@);
                    } else if k > i {
                        assert(t@[i as int].0 != encoding@);
                    }
                }
            }
            return Some(&entries[i].1);
        }
        i = i + 1;
    }
    None
}

impl NativeProfileAgreement {
    /// Confirms exact domain, version, mode and full table or contract
    /// content of the local and peer profiles (not only the short tokens).
    ///
    /// Fails with `ProfileMismatch` on any disagreement.
    pub fn new(local: Arc<NativeProfile>, peer: &NativeProfile) -> (r: Result<NativeProfileAgreement, NativeProfileError>)
        ensures
            r is Ok <==> local@ == peer@,
            r matches Ok(a) ==> a@ == local@,
            r matches Err(e) ==> e == NativeProfileError::ProfileMismatch,
    {
        if !profile_eq(&local, peer) {
            return Err(NativeProfileError::ProfileMismatch);
        }
        Ok(NativeProfileAgreement { profile: local })
    }

    /// Returns the retained profile generation.
    pub fn profile(&self) -> (p: &NativeProfile)
        ensures
            p@ == self@,
    {
        &self.profile
    }

    /// Prepares a matching newer generation before the route owner activates
    /// it; this agreement keeps the old generation for in-flight frames.
    ///
    /// Fails with `InvalidProfile` when the domain changes or the version does
    /// not increase, then with `ProfileMismatch` when the peer disagrees.
    pub fn successor(&self, local: Arc<NativeProfile>, peer: &NativeProfile) -> (r: Result<NativeProfileAgreement, NativeProfileError>)
        ensures
            r is Ok <==> local@.domain == self@.domain && local@.version > self@.version && local@ == peer@,
            r matches Ok(a) ==> a@ == local@,
            r matches Err(e) ==> if local@.domain != self@.domain || local@.version <= self@.version {
                e == NativeProfileError::InvalidProfile("successor must retain the domain and advance the version")
            } else {
                e == NativeProfileError::ProfileMismatch
            },
    {
        if !str_eq(local.domain.as_str(), self.profile.domain.as_str()) || local.version <= self.profile.version {
            return Err(NativeProfileError::InvalidProfile("successor must retain the domain and advance the version"));
        }
        Self::new(local, peer)
    }

    /// Resolves a complete representation under this route's explicit mode.
    ///
    /// Fails with `UnknownRepresentation` when the representation is absent
    /// from the table or differs from the operation contract's.
    pub fn identity_for(&self, representation: &NativeRepresentation) -> (r: Result<NativePayloadIdentity, NativeProfileError>)
        ensures
            r is Ok <==> mode_encoding(self@.mode, representation@) is Some,
            r matches Ok(id) ==> id.spec_encoding() == mode_encoding(self@.mode, representation@).unwrap()
                && id.spec_token() == representation_token(representation@),
            r matches Err(e) ==> e == NativeProfileError::UnknownRepresentation,
    {
        let profile: &NativeProfile = &self.profile;
        assert(profile@ == self@);
        assert(profile.mode@ == self@.mode);
        let encoding = match &profile.mode {
            NativeProfileMode::Table(table) => {
                let found = table_find_representation(table, representation);
                assert(self@.mode == ProfileModeModel::Table(table@));
                proof {
                    if found is Some {
                        let w = choose|i: int| first_with_representation(table@, representation@, i);
                        assert(first_with_representation(table@, representation@, w));
                    }
                }
                found
            },
            NativeProfileMode::ContractDefined(contract) => {
                assert(self@.mode == ProfileModeModel::ContractDefined(contract@.0, contract@.1));
                if representation_eq(&contract.representation, representation) {
                    assert(contract@.1 == representation@);
                    assert(mode_encoding(self@.mode, representation@) == Some(encoding_from_id(0)));
                    Some(PayloadEncoding::implicit())
                } else {
                    assert(mode_encoding(self@.mode, representation@) is None);
                    None
                }
            },
        };
        match encoding {
            Some(encoding) => Ok(NativePayloadIdentity { encoding, token: representation.token() }),
            None => Err(NativeProfileError::UnknownRepresentation),
        }
    }

    fn representation_for(&self, encoding: &PayloadEncoding) -> (r: Option<&NativeRepresentation>)
        ensures
            r is Some <==> mode_representation(self@.mode, encoding@) is Some,
            r matches Some(x) ==> x@ == mode_representation(self@.mode, encoding@).unwrap(),
    {
        let profile: &NativeProfile = &self.profile;
        assert(profile@ == self@);
        assert(profile.mode@ == self@.mode);
        match &profile.mode {
            NativeProfileMode::Table(table) => {
                let found = table_find_encoding(table, encoding);
                assert(self@.mode == ProfileModeModel::Table(table@));
                proof {
                    if found is Some {
                        let w = choose|i: int| first_with_encoding(table@, encoding@, i);
                        assert(first_with_encoding(table@, encoding@, w));
                    }
                }
                found
            },
            NativeProfileMode::ContractDefined(contract) => {
                assert(self@.mode == ProfileModeModel::ContractDefined(contract@.0, contract@.1));
                let implicit = PayloadEncoding::implicit();
                if encoding.is_compatible_with(&implicit) {
                    Some(&contract.representation)
                } else {
                    None
                }
            },
        }
    }

    /// Resolves a carried id from the agreed table or contract, without
    /// inspecting bytes or substituting a receiver's expected type.
    pub fn identity_for_encoding(&self, encoding: PayloadEncoding) -> (r: Option<NativePayloadIdentity>)
        ensures
            r is Some <==> mode_representation(self@.mode, encoding@) is Some,
            r matches Some(id) ==> id.spec_encoding() == encoding@
                && id.spec_token() == representation_token(mode_representation(self@.mode, encoding@).unwrap()),
    {
        match self.representation_for(&encoding) {
            Some(representation) => {
                let token = representation.token();
                Some(NativePayloadIdentity { encoding, token })
            },
            None => None,
        }
    }

    /// Checks a carried id and token pair before profile-dependent projection.
    ///
    /// Fails with `UnknownEncoding` for an id without agreed representation
    /// and with `IdentityMismatch` for a token that is not that
    /// representation's. Payload validity is a separate check.
    pub fn verify_carried(&self, encoding: PayloadEncoding, token: NativeTypeToken) -> (r: Result<(), NativeProfileError>)
        ensures
            r is Ok <==> (mode_representation(self@.mode, encoding@) matches Some(x) && representation_token(x) == token),
            r matches Err(e) ==> if mode_representation(self@.mode, encoding@) is None {
                e matches NativeProfileError::UnknownEncoding(enc) && enc@ == encoding@
            } else {
                e == NativeProfileError::IdentityMismatch
            },
    {
        match self.representation_for(&encoding) {
            None => Err(NativeProfileError::UnknownEncoding(encoding)),
            Some(representation) => {
                if representation.token() != token {
                    Err(NativeProfileError::IdentityMismatch)
                } else {
                    Ok(())
                }
            },
        }
    }

    /// Checks the complete expected representation as well as the carried pair.
    ///
    /// Fails with `UnknownRepresentation` when the representation is not
    /// agreed, and with `IdentityMismatch` when the carried encoding is not
    /// the one agreed for it or the token is not its token.
    pub fn verify_representation(&self, encoding: PayloadEncoding, token: NativeTypeToken, representation: &NativeRepresentation) -> (r: Result<(), NativeProfileError>)
        ensures
            r is Ok <==> mode_encoding(self@.mode, representation@) == Some(encoding@)
                && representation_token(representation@) == token,
            r matches Err(e) ==> if mode_encoding(self@.mode, representation@) is None {
                e == NativeProfileError::UnknownRepresentation
            } else {
                e == NativeProfileError::IdentityMismatch
            },
    {
        let expected = self.identity_for(representation)?;
        if !expected.encoding.is_compatible_with(&encoding) || expected.token != token {
            return Err(NativeProfileError::IdentityMismatch);
        }
        Ok(())
    }
}

// ---------------------------------------------------------------------------
// Laws
// ---------------------------------------------------------------------------

/// A table is determined by its entries: two well-formed tables (ascending
/// ids) with the same entries, whatever the registration order, are equal,
/// so they have the same canonical bytes and content digest.
pub proof fn lemma_table_order_independent(a: Seq<(PayloadEncodingModel, RepresentationModel)>, b: Seq<(PayloadEncodingModel, RepresentationModel)>)
    requires
        table_wf(a),
        table_wf(b),
        a.to_multiset() == b.to_multiset(),
    ensures
        a == b,
    decreases a.len(),
{
    broadcast use vstd::multiset::group_multiset_axioms, vstd::seq_lib::group_to_multiset_ensures;
    if a.len() == 0 {
        vstd::seq_lib::to_multiset_len(a);
        vstd::seq_lib::to_multiset_len(b);
        assert(b.to_multiset().len() == 0);
        assert(b.len() == 0);
        assert(a =~= b);
    } else {
        vstd::seq_lib::to_multiset_len(a);
        vstd::seq_lib::to_multiset_len(b);
        assert(b.len() == a.len());
        let x = a[0];
        let y = b[0];
        vstd::seq_lib::to_multiset_contains(a, x);
        vstd::seq_lib::to_multiset_contains(b, x);
        vstd::seq_lib::to_multiset_contains(b, y);
        vstd::seq_lib::to_multiset_contains(a, y);
        assert(a.contains(x));
        assert(b.contains(y));
        let j = choose|j: int| 0 <= j < b.len() && b[j] == x;
        let i = choose|i: int| 0 <= i < a.len() && a[i] == y;
        assert(x == y) by {
            if j > 0 {
                assert(entry_id(b[0]) < entry_id(b[j]));
            }
            if i > 0 {
                assert(entry_id(a[0]) < entry_id(a[i]));
            }
        }
        vstd::seq_lib::to_multiset_remove(a, 0);
        vstd::seq_lib::to_multiset_remove(b, 0);
        assert(a.remove(0) =~= a.drop_first());
        assert(b.remove(0) =~= b.drop_first());
        assert(table_wf(a.drop_first())) by {
            assert forall|p: int, q: int| 0 <= p < q < a.drop_first().len() implies
                entry_id(#[trigger] a.drop_first()[p]) < entry_id(#[trigger] a.drop_first()[q]) by {
                assert(a.drop_first()[p] == a[p + 1]);
                assert(a.drop_first()[q] == a[q + 1]);
            }
            assert forall|p: int| 0 <= p < a.drop_first().len() implies is_private(#[trigger] a.drop_first()[p].0) by {
                assert(a.drop_first()[p] == a[p + 1]);
            }
        }
        assert(table_wf(b.drop_first())) by {
            assert forall|p: int, q: int| 0 <= p < q < b.drop_first().len() implies
                entry_id(#[trigger] b.drop_first()[p]) < entry_id(#[trigger] b.drop_first()[q]) by {
                assert(b.drop_first()[p] == b[p + 1]);
                assert(b.drop_first()[q] == b[q + 1]);
            }
            assert forall|p: int| 0 <= p < b.drop_first().len() implies is_private(#[trigger] b.drop_first()[p].0) by {
                assert(b.drop_first()[p] == b[p + 1]);
            }
        }
        lemma_table_order_independent(a.drop_first(), b.drop_first());
        assert(a =~= b) by {
            assert forall|k: int| 0 <= k < a.len() implies a[k] == b[k] by {
                if k > 0 {
                    assert(a[k] == a.drop_first()[k - 1]);
                    assert(b[k] == b.drop_first()[k - 1]);
                }
            }
        }
    }
}

/// An identity resolved for a representation passes the carried-identity
/// check: the encoding agreed for a representation is agreed for that same
/// representation (so `verify_carried` accepts `identity_for`'s pair).
pub proof fn lemma_resolved_identity_is_carried(m: ProfileModeModel, r: RepresentationModel)
    requires
        mode_wf(m),
        mode_encoding(m, r) is Some,
    ensures
        mode_representation(m, mode_encoding(m, r).unwrap()) == Some(r),
{
    match m {
        ProfileModeModel::Table(t) => {
            let i = choose|i: int| first_with_representation(t, r, i);
            let e = t[i].0;
            assert(first_with_encoding(t, e, i)) by {
                assert forall|j: int| 0 <= j < i implies (#[trigger] t[j]).0 != e by {
                    assert(entry_id(t[j]) < entry_id(t[i]));
                }
            }
            let k = choose|k: int| first_with_encoding(t, e, k);
            assert(k == i) by {
                if k < i {
                    assert(t[k].0 != e);
                } else if k > i {
                    assert(t[i].0 != e);
                }
            }
        },
        ProfileModeModel::ContractDefined(_, _) => {},
    }
}

/// Errors establishing or using a scoped native agreement.
#[derive(Clone, Debug, PartialEq, Eq)]
pub enum NativeProfileError {
    /// The structural description is internally inconsistent.
    InvalidDescriptor(&'static str),
    /// The profile lacks an explicit domain, version or operation contract.
    InvalidProfile(&'static str),
    /// A table allocates outside the deployment-private range.
    NonPrivateEncoding(PayloadEncoding),
    /// Two table entries use one encoding id.
    DuplicateEncoding(PayloadEncoding),
    /// Two entries share a short structural token.
    TokenCollision(NativeTypeToken),
    /// The representation has no agreed allocation or contract.
    UnknownRepresentation,
    /// The carried id has no agreed allocation or contract.
    UnknownEncoding(PayloadEncoding),
    /// A carried identity differs from the agreed representation.
    IdentityMismatch,
    /// Loaded peer configurations differ.
    ProfileMismatch,
}

/// The human-readable text of a native agreement error.
pub open spec fn native_error_text(e: NativeProfileError) -> Seq<char> {
    match e {
        NativeProfileError::InvalidDescriptor(m) => "invalid native representation: "@ + m@,
        NativeProfileError::InvalidProfile(m) => "invalid native profile: "@ + m@,
        NativeProfileError::NonPrivateEncoding(enc) => "native table allocation "@ + encoding_description(enc@) + " is not private-use"@,
        NativeProfileError::DuplicateEncoding(enc) => "duplicate native encoding allocation "@ + encoding_description(enc@),
        NativeProfileError::TokenCollision(t) => "native type token collision: NativeTypeToken("@ + decimal(t.0 as nat) + ")"@,
        NativeProfileError::UnknownRepresentation => "native representation is not in the agreed profile"@,
        NativeProfileError::UnknownEncoding(enc) => "payload encoding "@ + encoding_description(enc@) + " is not in the agreed native profile"@,
        NativeProfileError::IdentityMismatch => "native encoding/type token mismatch"@,
        NativeProfileError::ProfileMismatch => "native profile domain, version, mode or content differs"@,
    }
}

impl NativeProfileError {
    /// Returns the human-readable text of this error.
    pub fn to_string(&self) -> (s: String)
        ensures
            s@ == native_error_text(*self),
    {
        match self {
            NativeProfileError::InvalidDescriptor(m) => concat_str("invalid native representation: ", m),
            NativeProfileError::InvalidProfile(m) => concat_str("invalid native profile: ", m),
            NativeProfileError::NonPrivateEncoding(enc) => {
                let d = enc.describe();
                concat3("native table allocation ", d.as_str(), " is not private-use")
            },
            NativeProfileError::DuplicateEncoding(enc) => {
                let d = enc.describe();
                concat_str("duplicate native encoding allocation ", d.as_str())
            },
            NativeProfileError::TokenCollision(t) => {
                let mut out = String::from_str("native type token collision: NativeTypeToken(");
                append_decimal(&mut out, t.0);
                out.append(")");
                out
            },
            NativeProfileError::UnknownRepresentation => String::from_str("native representation is not in the agreed profile"),
            NativeProfileError::UnknownEncoding(enc) => {
                let d = enc.describe();
                concat3("payload encoding ", d.as_str(), " is not in the agreed native profile")
            },
            NativeProfileError::IdentityMismatch => String::from_str("native encoding/type token mismatch"),
            NativeProfileError::ProfileMismatch => String::from_str("native profile domain, version, mode or content differs"),
        }
    }
}

} // verus!
