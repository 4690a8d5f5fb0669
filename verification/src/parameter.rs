//! Parameter type tags and the packed type word of a TEE operation.

use vstd::prelude::*;

verus! {

/// Indicates how one parameter slot of an operation structure is to be
/// interpreted: unused, a scalar value pair, a temporary memory reference,
/// or a registered (whole or partial) memory reference.
#[derive(Clone, Copy, Debug, PartialEq, Eq, Structural)]
pub enum ParamType {
    /// The parameter slot is not used (the protocol's NONE tag).
    Unused,
    /// A scalar value pair tagged as input.
    ValueInput,
    /// A scalar value pair tagged as output.
    ValueOutput,
    /// A scalar value pair tagged as both input and output.
    ValueInout,
    /// A temporary memory reference, registered for the duration of the
    /// operation, tagged as input.
    MemrefTempInput,
    /// A temporary memory reference tagged as output.
    MemrefTempOutput,
    /// A temporary memory reference tagged as both input and output.
    MemrefTempInout,
    /// A registered memory reference covering its whole parent shared
    /// memory block.
    MemrefWhole,
    /// A registered memory reference covering a partial region of its
    /// parent block, tagged as input.
    MemrefPartialInput,
    /// A registered memory reference covering a partial region of its
    /// parent block, tagged as output.
    MemrefPartialOutput,
    /// A registered memory reference covering a partial region of its
    /// parent block, tagged as both input and output.
    MemrefPartialInout,
}

/// The wire-significant 4-bit tag of each parameter type.
pub open spec fn spec_tag(t: ParamType) -> u32 {
    match t {
        ParamType::Unused => 0x0,
        ParamType::ValueInput => 0x1,
        ParamType::ValueOutput => 0x2,
        ParamType::ValueInout => 0x3,
        ParamType::MemrefTempInput => 0x5,
        ParamType::MemrefTempOutput => 0x6,
        ParamType::MemrefTempInout => 0x7,
        ParamType::MemrefWhole => 0xC,
        ParamType::MemrefPartialInput => 0xD,
        ParamType::MemrefPartialOutput => 0xE,
        ParamType::MemrefPartialInout => 0xF,
    }
}

/// Decoding of a raw tag value. Values outside the eleven defined tags
/// (0x4, 0x8 through 0xB, and anything above 0xF) silently decode to
/// `Unused`: the protocol tolerates unused or zero-filled slots this way,
/// so an unknown tag is a defensive default, never an error.
pub open spec fn spec_decode(v: u32) -> ParamType {
    if v == 0x0 {
        ParamType::Unused
    } else if v == 0x1 {
        ParamType::ValueInput
    } else if v == 0x2 {
        ParamType::ValueOutput
    } else if v == 0x3 {
        ParamType::ValueInout
    } else if v == 0x5 {
        ParamType::MemrefTempInput
    } else if v == 0x6 {
        ParamType::MemrefTempOutput
    } else if v == 0x7 {
        ParamType::MemrefTempInout
    } else if v == 0xC {
        ParamType::MemrefWhole
    } else if v == 0xD {
        ParamType::MemrefPartialInput
    } else if v == 0xE {
        ParamType::MemrefPartialOutput
    } else if v == 0xF {
        ParamType::MemrefPartialInout
    } else {
        ParamType::Unused
    }
}

impl ParamType {
    /// The wire tag of this type, as packed into a type word.
    pub fn tag(&self) -> (r: u32)
        ensures
            r == spec_tag(*self),
            r <= 0xF,
    {
        match *self {
            ParamType::Unused => 0x0,
            ParamType::ValueInput => 0x1,
            ParamType::ValueOutput => 0x2,
            ParamType::ValueInout => 0x3,
            ParamType::MemrefTempInput => 0x5,
            ParamType::MemrefTempOutput => 0x6,
            ParamType::MemrefTempInout => 0x7,
            ParamType::MemrefWhole => 0xC,
            ParamType::MemrefPartialInput => 0xD,
            ParamType::MemrefPartialOutput => 0xE,
            ParamType::MemrefPartialInout => 0xF,
        }
    }
}

impl From<u32> for ParamType {
    /// Decodes a raw tag; unknown values degrade to `Unused` by design.
    fn from(value: u32) -> (r: ParamType) {
        if value == 0x0 {
            ParamType::Unused
        } else if value == 0x1 {
            ParamType::ValueInput
        } else if value == 0x2 {
            ParamType::ValueOutput
        } else if value == 0x3 {
            ParamType::ValueInout
        } else if value == 0x5 {
            ParamType::MemrefTempInput
        } else if value == 0x6 {
            ParamType::MemrefTempOutput
        } else if value == 0x7 {
            ParamType::MemrefTempInout
        } else if value == 0xC {
            ParamType::MemrefWhole
        } else if value == 0xD {
            ParamType::MemrefPartialInput
        } else if value == 0xE {
            ParamType::MemrefPartialOutput
        } else if value == 0xF {
            ParamType::MemrefPartialInout
        } else {
            ParamType::Unused
        }
    }
}

impl vstd::std_specs::convert::FromSpecImpl<u32> for ParamType {
    open spec fn obeys_from_spec() -> bool {
        true
    }

    open spec fn from_spec(value: u32) -> Self {
        spec_decode(value)
    }
}

/// Decoding a tag is the inverse of encoding it: every legal type comes
/// back from its own wire tag.
pub proof fn lemma_decode_tag(t: ParamType)
    ensures
        spec_decode(spec_tag(t)) == t,
{
}

/// The packed word that encodes four parameter types: 4 bits per type,
/// with the type of slot `i` shifted into nibble `i` (least-significant
/// nibble = slot 0).
pub open spec fn spec_pack(p0: ParamType, p1: ParamType, p2: ParamType, p3: ParamType) -> u32 {
    spec_tag(p0) | spec_tag(p1) << 4 | spec_tag(p2) << 8 | spec_tag(p3) << 12
}

/// The four parameter types encoded in a raw type word: nibble `i` holds
/// the tag of slot `i`. Only the low 16 bits take part.
pub open spec fn spec_flags(w: u32) -> (ParamType, ParamType, ParamType, ParamType) {
    (
        spec_decode(w & 0xF),
        spec_decode((w >> 4) & 0xF),
        spec_decode((w >> 8) & 0xF),
        spec_decode((w >> 12) & 0xF),
    )
}

/// A packed 16-bit type word: four 4-bit nibbles, nibble `i` carrying the
/// type of parameter slot `i`.
pub struct ParamTypes(u32);

impl ParamTypes {
    /// The raw type word.
    pub closed spec fn spec_word(&self) -> u32 {
        self.0
    }

    /// Packs four parameter types into one type word. Encoding never
    /// fails, and the result fits in 16 bits.
    pub fn new(p0: ParamType, p1: ParamType, p2: ParamType, p3: ParamType) -> (r: Self)
        ensures
            r.spec_word() == spec_pack(p0, p1, p2, p3),
            r.spec_word() <= 0xFFFF,
    {
        let t0 = p0.tag();
        let t1 = p1.tag();
        let t2 = p2.tag();
        let t3 = p3.tag();
        let w = t0 | t1 << 4 | t2 << 8 | t3 << 12;
        proof {
            assert(t0 | t1 << 4 | t2 << 8 | t3 << 12 <= 0xFFFF) by (bit_vector)
                requires
                    t0 <= 0xF,
                    t1 <= 0xF,
                    t2 <= 0xF,
                    t3 <= 0xF,
            ;
        }
        ParamTypes(w)
    }

    /// Wraps a raw type word as it stands; the word is taken whole, and
    /// every 4-bit value in it is meaningful to `into_flags`, so this
    /// cannot fail.
    pub fn from_word(word: u32) -> (r: Self)
        ensures
            r.spec_word() == word,
    {
        ParamTypes(word)
    }

    /// Packs four raw tag values, one per slot, by the same nibble
    /// shifts as `new`; each value is taken as it stands, so anything
    /// above 4 bits spills into the higher nibbles.
    pub fn from_array(param_types: [u32; 4]) -> (r: Self)
        ensures
            r.spec_word() == (param_types[0] | param_types[1] << 4 | param_types[2] << 8
                | param_types[3] << 12),
    {
        ParamTypes(
            param_types[0] | param_types[1] << 4 | param_types[2] << 8 | param_types[3] << 12,
        )
    }

    /// The raw type word, as handed across the driver boundary.
    pub fn as_word(&self) -> (r: u32)
        ensures
            r == self.spec_word(),
    {
        self.0
    }

    /// Unpacks the word back into the four slot types: the exact inverse
    /// of `new` (high bits above the low 16 are ignored; reserved nibble
    /// values degrade to `Unused`).
    pub fn into_flags(&self) -> (r: (ParamType, ParamType, ParamType, ParamType))
        ensures
            r == spec_flags(self.spec_word()),
    {
        (
            ParamType::from(self.0 & 0xF),
            ParamType::from((self.0 >> 4) & 0xF),
            ParamType::from((self.0 >> 8) & 0xF),
            ParamType::from((self.0 >> 12) & 0xF),
        )
    }
}

/// Law (round-trip): packing any four of the eleven legal types and
/// unpacking the resulting word yields exactly the same four types, in
/// order.
pub proof fn lemma_pack_round_trip(p0: ParamType, p1: ParamType, p2: ParamType, p3: ParamType)
    ensures
        spec_flags(spec_pack(p0, p1, p2, p3)) == (p0, p1, p2, p3),
{
    let t0 = spec_tag(p0);
    let t1 = spec_tag(p1);
    let t2 = spec_tag(p2);
    let t3 = spec_tag(p3);
    assert(((t0 | t1 << 4 | t2 << 8 | t3 << 12) & 0xF) == t0
        && (((t0 | t1 << 4 | t2 << 8 | t3 << 12) >> 4) & 0xF) == t1
        && (((t0 | t1 << 4 | t2 << 8 | t3 << 12) >> 8) & 0xF) == t2
        && (((t0 | t1 << 4 | t2 << 8 | t3 << 12) >> 12) & 0xF) == t3) by (bit_vector)
        requires
            t0 <= 0xF,
            t1 <= 0xF,
            t2 <= 0xF,
            t3 <= 0xF,
    ;
    lemma_decode_tag(p0);
    lemma_decode_tag(p1);
    lemma_decode_tag(p2);
    lemma_decode_tag(p3);
}

/// Law (truncation): a type word only carries information in its low 16
/// bits, so decoding any 32-bit word equals decoding its truncation.
pub proof fn lemma_flags_of_low_word(w: u32)
    ensures
        spec_flags(w) == spec_flags(w & 0xFFFF),
{
    assert((w & 0xF) == ((w & 0xFFFF) & 0xF)
        && ((w >> 4) & 0xF) == (((w & 0xFFFF) >> 4) & 0xF)
        && ((w >> 8) & 0xF) == (((w & 0xFFFF) >> 8) & 0xF)
        && ((w >> 12) & 0xF) == (((w & 0xFFFF) >> 12) & 0xF)) by (bit_vector);
}

/// Payload of one parameter: the two interpretations of the wire union
/// that this layer uses, kept apart as a tagged sum instead of a raw
/// union. A memory reference is carried as a plain address and length;
/// only the embedding program turns it back into a pointer at the driver
/// boundary.
#[derive(Clone, Copy, Debug, PartialEq, Eq, Structural)]
pub enum ParamValue {
    /// Two independent 32-bit scalar fields.
    Value { a: u32, b: u32 },
    /// A caller-owned buffer: its address and its byte length.
    TmpRef { buffer: usize, size: usize },
}

/// One typed argument of an operation: a payload together with the type
/// tag that says which interpretation of the payload is the active one.
#[derive(Clone, Copy, Debug)]
pub struct Parameter {
    /// The payload, under whichever interpretation `param_type` selects.
    pub raw: ParamValue,
    /// The type tag under which the payload is to be read.
    pub param_type: ParamType,
}

impl Parameter {
    /// A zero-filled parameter marked unused.
    pub fn new() -> (r: Self)
        ensures
            r.raw == (ParamValue::Value { a: 0, b: 0 }),
            r.param_type == ParamType::Unused,
    {
        Self { raw: ParamValue::Value { a: 0, b: 0 }, param_type: ParamType::Unused }
    }

    /// A scalar parameter carrying `a` and `b`. Meaningful only under one
    /// of the three Value type tags; as in the protocol itself, no runtime
    /// guard is placed here — the choice of tag is the caller's.
    pub fn from_value(a: u32, b: u32, param_type: ParamType) -> (r: Self)
        ensures
            r.raw == (ParamValue::Value { a, b }),
            r.param_type == param_type,
    {
        Self { raw: ParamValue::Value { a, b }, param_type }
    }

    /// A temporary memory reference to `size` bytes of caller-owned memory
    /// at address `buffer`, registered only for the duration of one
    /// invocation. Meaningful only under one of the three MemrefTemp type
    /// tags; the caller must keep the backing memory alive and unmoved
    /// until the invocation completes.
    pub fn from_tmpref(buffer: usize, size: usize, param_type: ParamType) -> (r: Self)
        ensures
            r.raw == (ParamValue::TmpRef { buffer, size }),
            r.param_type == param_type,
    {
        Self { raw: ParamValue::TmpRef { buffer, size }, param_type }
    }

    /// Zips a raw payload, as it came back across the driver boundary,
    /// with its decoded type tag.
    pub fn from_raw(raw: ParamValue, param_type: ParamType) -> (r: Self)
        ensures
            r.raw == raw,
            r.param_type == param_type,
    {
        Self { raw, param_type }
    }

    /// The two scalar fields. The scalar interpretation must be the
    /// active one: reading a memory reference as a value pair, undefined
    /// on the wire, is ruled out here at the type level.
    pub fn value(&self) -> (r: (u32, u32))
        requires
            self.raw is Value,
        ensures
            r.0 == self.raw->a,
            r.1 == self.raw->b,
    {
        match self.raw {
            ParamValue::Value { a, b } => (a, b),
            ParamValue::TmpRef { .. } => vstd::pervasive::unreached(),
        }
    }

    /// Overwrites the two scalar fields, leaving the type tag as it is.
    /// The scalar interpretation must already be the active one.
    pub fn set_value(&mut self, a: u32, b: u32)
        requires
            old(self).raw is Value,
        ensures
            final(self).raw == (ParamValue::Value { a, b }),
            final(self).param_type == old(self).param_type,
    {
        self.raw = ParamValue::Value { a, b };
    }

    /// The buffer address of the memory reference. The memory-reference
    /// interpretation must be the active one.
    pub fn tmpref(&mut self) -> (r: usize)
        requires
            old(self).raw is TmpRef,
        ensures
            r == old(self).raw->buffer,
            *final(self) == *old(self),
    {
        match self.raw {
            ParamValue::TmpRef { buffer, .. } => buffer,
            ParamValue::Value { .. } => vstd::pervasive::unreached(),
        }
    }

    /// Replaces the type tag, leaving the payload as it is.
    pub fn set_param_type(&mut self, param_type: ParamType)
        ensures
            final(self).param_type == param_type,
            final(self).raw == old(self).raw,
    {
        self.param_type = param_type;
    }

    /// The raw payload, for handing back across the driver boundary; this
    /// takes the place of the wire-union conversion.
    pub fn into_raw(self) -> (r: ParamValue)
        ensures
            r == self.raw,
    {
        self.raw
    }
}

/// An ordered 4-tuple of parameters. Slot order is fixed and significant:
/// the invocation protocol supports exactly four argument slots, a hard
/// protocol limit.
pub struct Parameters(pub Parameter, pub Parameter, pub Parameter, pub Parameter);

impl Parameters {
    /// Zips four raw payloads with the four types decoded from a packed
    /// type word into an ordered tuple: slot `i` takes payload `i` under
    /// the type in nibble `i`.
    pub fn new(teec_params: [ParamValue; 4], param_types: u32) -> (r: Parameters)
        ensures
            r.0.raw == teec_params[0] && r.0.param_type == spec_flags(param_types).0,
            r.1.raw == teec_params[1] && r.1.param_type == spec_flags(param_types).1,
            r.2.raw == teec_params[2] && r.2.param_type == spec_flags(param_types).2,
            r.3.raw == teec_params[3] && r.3.param_type == spec_flags(param_types).3,
    {
        let (f0, f1, f2, f3) = ParamTypes::from_word(param_types).into_flags();
        let p0 = Parameter::from_raw(teec_params[0], f0);
        let p1 = Parameter::from_raw(teec_params[1], f1);
        let p2 = Parameter::from_raw(teec_params[2], f2);
        let p3 = Parameter::from_raw(teec_params[3], f3);
        Parameters(p0, p1, p2, p3)
    }

    /// The parameter in slot 0.
    pub fn first(&self) -> (r: &Parameter)
        ensures
            *r == self.0,
    {
        &self.0
    }

    /// The parameter in slot 1.
    pub fn second(&self) -> (r: &Parameter)
        ensures
            *r == self.1,
    {
        &self.1
    }

    /// The parameter in slot 2.
    pub fn third(&self) -> (r: &Parameter)
        ensures
            *r == self.2,
    {
        &self.2
    }

    /// The parameter in slot 3.
    pub fn fourth(&self) -> (r: &Parameter)
        ensures
            *r == self.3,
    {
        &self.3
    }
}

} // verus!
