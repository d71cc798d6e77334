use vstd::prelude::*;

verus! {

/// Error produced when a register byte holds a bit pattern outside a
/// field's defined variant set.
#[derive(Debug, Clone, Copy, PartialEq, Eq, Structural)]
pub enum RegisterError {
    ConversionError,
}

/// The device's named registers. Each variant stands for one 8-bit
/// register; [`Register::addr`] gives its address exactly as the
/// datasheet fixes it. The numeric values are load-bearing for hardware
/// compatibility and must stay bit-exact.
#[derive(Debug, Clone, Copy)]
pub enum Register {
    FuncCfgAccess,
    PinCtrl,
    FifoCtrl1,
    FifoCtrl2,
    FifoCtrl3,
    FifoCtrl4,
    CounterBdrReg1,
    CounterBdrReg2,
    Int1Ctrl,
    Int2Ctrl,
    WhoAmI,
    Ctrl1XL,
    Ctrl2G,
    Ctrl3C,
    Ctrl4C,
    Ctrl5C,
    Ctrl6C,
    Ctrl7G,
    Ctrl8Xl,
    Ctrl9Xl,
    Ctrl10C,
    AllIntSrc,
    WakeUpSrc,
    TapSrc,
    D6dSrc,
    StatusReg,
    OutTempL,
    OutTempH,
    OutXLG,
    OutXHG,
    OutYLG,
    OutYHG,
    OutZLG,
    OutZHG,
    OutXLA,
    OutXHA,
    OutYLA,
    OutYHA,
    OutZLA,
    OutZHA,
    EmbFuncStatusMainpage,
    FsmStatusAMainpage,
    FsmStatusBMainpage,
    StatusMasterMainpage,
    FifoStatus1,
    FifoStatus2,
    Timestamp0,
    Timestamp1,
    Timestamp2,
    Timestamp3,
    TapCfg0,
    TapCfg1,
    TapCfg2,
    TapThs6d,
    IntDur2,
    WakeUpThs,
    WakeUpDur,
    FreeFall,
    Md1Cfg,
    Md2Cfg,
    I3cBusAvb,
    InternalFreqFine,
    IntOis,
    Ctrl1Ois,
    Ctrl2Ois,
    Ctrl3Ois,
    XOfsUsr,
    YOfsUsr,
    ZOfsUsr,
    FifoDataOutTag,
    FifoDataOutXL,
    FifoDataOutXH,
    FifoDataOutYL,
    FifoDataOutYH,
    FifoDataOutZL,
    FifoDataOutZH,
}

impl Register {
    /// The register's one-byte bus address.
    pub open spec fn spec_addr(self) -> u8 {
        match self {
            Register::FuncCfgAccess => 0x01,
            Register::PinCtrl => 0x02,
            Register::FifoCtrl1 => 0x07,
            Register::FifoCtrl2 => 0x08,
            Register::FifoCtrl3 => 0x09,
            Register::FifoCtrl4 => 0x0A,
            Register::CounterBdrReg1 => 0x0B,
            Register::CounterBdrReg2 => 0x0C,
            Register::Int1Ctrl => 0x0D,
            Register::Int2Ctrl => 0x0E,
            Register::WhoAmI => 0x0F,
            Register::Ctrl1XL => 0x10,
            Register::Ctrl2G => 0x11,
            Register::Ctrl3C => 0x12,
            Register::Ctrl4C => 0x13,
            Register::Ctrl5C => 0x14,
            Register::Ctrl6C => 0x15,
            Register::Ctrl7G => 0x16,
            Register::Ctrl8Xl => 0x17,
            Register::Ctrl9Xl => 0x18,
            Register::Ctrl10C => 0x19,
            Register::AllIntSrc => 0x1A,
            Register::WakeUpSrc => 0x1B,
            Register::TapSrc => 0x1C,
            Register::D6dSrc => 0x1D,
            Register::StatusReg => 0x1E,
            Register::OutTempL => 0x20,
            Register::OutTempH => 0x21,
            Register::OutXLG => 0x22,
            Register::OutXHG => 0x23,
            Register::OutYLG => 0x24,
            Register::OutYHG => 0x25,
            Register::OutZLG => 0x26,
            Register::OutZHG => 0x27,
            Register::OutXLA => 0x28,
            Register::OutXHA => 0x29,
            Register::OutYLA => 0x2A,
            Register::OutYHA => 0x2B,
            Register::OutZLA => 0x2C,
            Register::OutZHA => 0x2D,
            Register::EmbFuncStatusMainpage => 0x35,
            Register::FsmStatusAMainpage => 0x36,
            Register::FsmStatusBMainpage => 0x37,
            Register::StatusMasterMainpage => 0x39,
            Register::FifoStatus1 => 0x3A,
            Register::FifoStatus2 => 0x3B,
            Register::Timestamp0 => 0x40,
            Register::Timestamp1 => 0x41,
            Register::Timestamp2 => 0x42,
            Register::Timestamp3 => 0x43,
            Register::TapCfg0 => 0x56,
            Register::TapCfg1 => 0x57,
            Register::TapCfg2 => 0x58,
            Register::TapThs6d => 0x59,
            Register::IntDur2 => 0x5A,
            Register::WakeUpThs => 0x5B,
            Register::WakeUpDur => 0x5C,
            Register::FreeFall => 0x5D,
            Register::Md1Cfg => 0x5E,
            Register::Md2Cfg => 0x5F,
            Register::I3cBusAvb => 0x62,
            Register::InternalFreqFine => 0x63,
            Register::IntOis => 0x6F,
            Register::Ctrl1Ois => 0x70,
            Register::Ctrl2Ois => 0x71,
            Register::Ctrl3Ois => 0x72,
            Register::XOfsUsr => 0x73,
            Register::YOfsUsr => 0x74,
            Register::ZOfsUsr => 0x75,
            Register::FifoDataOutTag => 0x78,
            Register::FifoDataOutXL => 0x79,
            Register::FifoDataOutXH => 0x7A,
            Register::FifoDataOutYL => 0x7B,
            Register::FifoDataOutYH => 0x7C,
            Register::FifoDataOutZL => 0x7D,
            Register::FifoDataOutZH => 0x7E,
        }
    }

    /// Executable address lookup.
    pub fn addr(self) -> (r: u8)
        ensures
            r == self.spec_addr(),
    {
        match self {
            Register::FuncCfgAccess => 0x01,
            Register::PinCtrl => 0x02,
            Register::FifoCtrl1 => 0x07,
            Register::FifoCtrl2 => 0x08,
            Register::FifoCtrl3 => 0x09,
            Register::FifoCtrl4 => 0x0A,
            Register::CounterBdrReg1 => 0x0B,
            Register::CounterBdrReg2 => 0x0C,
            Register::Int1Ctrl => 0x0D,
            Register::Int2Ctrl => 0x0E,
            Register::WhoAmI => 0x0F,
            Register::Ctrl1XL => 0x10,
            Register::Ctrl2G => 0x11,
            Register::Ctrl3C => 0x12,
            Register::Ctrl4C => 0x13,
            Register::Ctrl5C => 0x14,
            Register::Ctrl6C => 0x15,
            Register::Ctrl7G => 0x16,
            Register::Ctrl8Xl => 0x17,
            Register::Ctrl9Xl => 0x18,
            Register::Ctrl10C => 0x19,
            Register::AllIntSrc => 0x1A,
            Register::WakeUpSrc => 0x1B,
            Register::TapSrc => 0x1C,
            Register::D6dSrc => 0x1D,
            Register::StatusReg => 0x1E,
            Register::OutTempL => 0x20,
            Register::OutTempH => 0x21,
            Register::OutXLG => 0x22,
            Register::OutXHG => 0x23,
            Register::OutYLG => 0x24,
            Register::OutYHG => 0x25,
            Register::OutZLG => 0x26,
            Register::OutZHG => 0x27,
            Register::OutXLA => 0x28,
            Register::OutXHA => 0x29,
            Register::OutYLA => 0x2A,
            Register::OutYHA => 0x2B,
            Register::OutZLA => 0x2C,
            Register::OutZHA => 0x2D,
            Register::EmbFuncStatusMainpage => 0x35,
            Register::FsmStatusAMainpage => 0x36,
            Register::FsmStatusBMainpage => 0x37,
            Register::StatusMasterMainpage => 0x39,
            Register::FifoStatus1 => 0x3A,
            Register::FifoStatus2 => 0x3B,
            Register::Timestamp0 => 0x40,
            Register::Timestamp1 => 0x41,
            Register::Timestamp2 => 0x42,
            Register::Timestamp3 => 0x43,
            Register::TapCfg0 => 0x56,
            Register::TapCfg1 => 0x57,
            Register::TapCfg2 => 0x58,
            Register::TapThs6d => 0x59,
            Register::IntDur2 => 0x5A,
            Register::WakeUpThs => 0x5B,
            Register::WakeUpDur => 0x5C,
            Register::FreeFall => 0x5D,
            Register::Md1Cfg => 0x5E,
            Register::Md2Cfg => 0x5F,
            Register::I3cBusAvb => 0x62,
            Register::InternalFreqFine => 0x63,
            Register::IntOis => 0x6F,
            Register::Ctrl1Ois => 0x70,
            Register::Ctrl2Ois => 0x71,
            Register::Ctrl3Ois => 0x72,
            Register::XOfsUsr => 0x73,
            Register::YOfsUsr => 0x74,
            Register::ZOfsUsr => 0x75,
            Register::FifoDataOutTag => 0x78,
            Register::FifoDataOutXL => 0x79,
            Register::FifoDataOutXH => 0x7A,
            Register::FifoDataOutYL => 0x7B,
            Register::FifoDataOutYH => 0x7C,
            Register::FifoDataOutZL => 0x7D,
            Register::FifoDataOutZH => 0x7E,
        }
    }
}

/// One configurable bit-field of a control register: a closed variant
/// set whose variants each carry a numeric code, together with the
/// field's width mask and its bit offset within the host register. The
/// mask and offset are fixed per field; they encode the chip's hardware
/// layout and are never derived at runtime.
pub trait RegisterOption: Sized + Copy {
    /// The field's width mask, applied to a code before shifting.
    spec fn spec_mask() -> u8;

    /// The field's bit offset within its host register.
    spec fn spec_offset() -> u8;

    /// The variant's numeric code.
    spec fn spec_value(self) -> u8;

    /// The variant, if any, whose code is exactly `bits`.
    spec fn spec_from_bits(bits: u8) -> Option<Self>;

    /// The laws every field obeys: the offset is a bit position inside
    /// the byte, the shifted mask loses no bits of the mask, every code
    /// fits the mask, and code lookup is exactly inverse to the code
    /// assignment (total on defined codes, empty elsewhere).
    proof fn lemma_well_formed()
        ensures
            Self::spec_offset() < 8,
            (Self::spec_mask() << Self::spec_offset()) >> Self::spec_offset() == Self::spec_mask(),
            forall|v: Self| (#[trigger] v.spec_value()) & Self::spec_mask() == v.spec_value(),
            forall|v: Self| Self::spec_from_bits(#[trigger] v.spec_value()) == Some(v),
            forall|bits: u8| (#[trigger] Self::spec_from_bits(bits)) matches Some(v)
                ==> v.spec_value() == bits,
    ;

    /// Executable code of the variant.
    fn value(&self) -> (r: u8)
        ensures
            r == self.spec_value(),
    ;

    /// Executable width mask of the field.
    fn mask() -> (r: u8)
        ensures
            r == Self::spec_mask(),
    ;

    /// Executable bit offset of the field.
    fn bit_offset() -> (r: u8)
        ensures
            r == Self::spec_offset(),
    ;
}

/// The bits of `byte` that belong to the field `RO`, shifted down to the
/// low end.
pub open spec fn spec_field_bits<RO: RegisterOption>(byte: u8) -> u8 {
    (byte >> RO::spec_offset()) & RO::spec_mask()
}

/// Field-level decode of a whole register byte: the variant whose code
/// the field's bits spell, if any.
pub open spec fn spec_decode_field<RO: RegisterOption>(byte: u8) -> Option<RO> {
    RO::spec_from_bits(spec_field_bits::<RO>(byte))
}

/// A read-modify-write byte: `cur` with the bits under `mask << offset`
/// replaced by the low bits of `value`, all other bits kept.
pub open spec fn spec_merge_bits(cur: u8, value: u8, mask: u8, offset: u8) -> u8 {
    (cur & !(mask << offset)) | ((value & mask) << offset)
}

/// `cur` with the field that `v` belongs to replaced by `v`'s code.
pub open spec fn spec_apply_field<RO: RegisterOption>(cur: u8, v: RO) -> u8 {
    spec_merge_bits(cur, v.spec_value(), RO::spec_mask(), RO::spec_offset())
}

/// Executable read-modify-write merge, the one formula every partial
/// register update goes through.
pub fn merge_bits(cur: u8, value: u8, mask: u8, offset: u8) -> (r: u8)
    requires
        offset < 8,
    ensures
        r == spec_merge_bits(cur, value, mask, offset),
{
    (cur & !(mask << offset)) | ((value & mask) << offset)
}

/// Merging a field value into a byte and extracting the same field
/// again yields the value, whatever the unrelated bits of the byte.
proof fn lemma_merge_extract(cur: u8, val: u8, mask: u8, off: u8)
    requires
        off < 8,
        val & mask == val,
        (mask << off) >> off == mask,
    ensures
        (((cur & !(mask << off)) | ((val & mask) << off)) >> off) & mask == val,
{
    assert((((cur & !(mask << off)) | ((val & mask) << off)) >> off) & mask == val) by (bit_vector)
        requires
            off < 8,
            val & mask == val,
            (mask << off) >> off == mask,
    ;
}

/// Round trip law: encoding a variant into any register byte and
/// decoding the same field back yields the variant again — the codec
/// never touches bits outside its own mask and offset, so the unrelated
/// bits of the byte cannot disturb it.
pub proof fn lemma_encode_decode_roundtrip<RO: RegisterOption>(v: RO, reg: u8)
    ensures
        spec_decode_field::<RO>(spec_apply_field(reg, v)) == Some(v),
{
    RO::lemma_well_formed();
    lemma_merge_extract(reg, v.spec_value(), RO::spec_mask(), RO::spec_offset());
}

/// Accelerometer output data rate, bits [7:4] of its control register.
#[derive(Debug, Clone, Copy, PartialEq, Eq, Structural)]
pub enum AccelerometerOutput {
    PowerDown,
    /// Low power only. Is 12.5 Hz in high performance mode.
    Rate1_6,
    Rate12_5,
    Rate26,
    Rate52,
    Rate104,
    Rate208,
    Rate416,
    Rate833,
    Rate1_66k,
    Rate3_33k,
    Rate6_66k,
}

impl RegisterOption for AccelerometerOutput {
    open spec fn spec_mask() -> u8 {
        0x0F
    }

    open spec fn spec_offset() -> u8 {
        4
    }

    open spec fn spec_value(self) -> u8 {
        match self {
            AccelerometerOutput::PowerDown => 0b0000,
            AccelerometerOutput::Rate1_6 => 0b1011,
            AccelerometerOutput::Rate12_5 => 0b0001,
            AccelerometerOutput::Rate26 => 0b0010,
            AccelerometerOutput::Rate52 => 0b0011,
            AccelerometerOutput::Rate104 => 0b0100,
            AccelerometerOutput::Rate208 => 0b0101,
            AccelerometerOutput::Rate416 => 0b0110,
            AccelerometerOutput::Rate833 => 0b0111,
            AccelerometerOutput::Rate1_66k => 0b1000,
            AccelerometerOutput::Rate3_33k => 0b1001,
            AccelerometerOutput::Rate6_66k => 0b1010,
        }
    }

    open spec fn spec_from_bits(bits: u8) -> Option<Self> {
        if bits == 0b0000 {
            Some(AccelerometerOutput::PowerDown)
        } else if bits == 0b1011 {
            Some(AccelerometerOutput::Rate1_6)
        } else if bits == 0b0001 {
            Some(AccelerometerOutput::Rate12_5)
        } else if bits == 0b0010 {
            Some(AccelerometerOutput::Rate26)
        } else if bits == 0b0011 {
            Some(AccelerometerOutput::Rate52)
        } else if bits == 0b0100 {
            Some(AccelerometerOutput::Rate104)
        } else if bits == 0b0101 {
            Some(AccelerometerOutput::Rate208)
        } else if bits == 0b0110 {
            Some(AccelerometerOutput::Rate416)
        } else if bits == 0b0111 {
            Some(AccelerometerOutput::Rate833)
        } else if bits == 0b1000 {
            Some(AccelerometerOutput::Rate1_66k)
        } else if bits == 0b1001 {
            Some(AccelerometerOutput::Rate3_33k)
        } else if bits == 0b1010 {
            Some(AccelerometerOutput::Rate6_66k)
        } else {
            None
        }
    }

    proof fn lemma_well_formed() {
        assert((0x0Fu8 << 4) >> 4 == 0x0Fu8) by (bit_vector);
        assert forall|v: Self| (#[trigger] v.spec_value()) & Self::spec_mask() == v.spec_value() by {
            let x = v.spec_value();
            assert(x <= 0x0F);
            assert(x & 0x0Fu8 == x) by (bit_vector)
                requires
                    x <= 0x0F,
            ;
        }
    }

    fn value(&self) -> u8 {
        match *self {
            AccelerometerOutput::PowerDown => 0b0000,
            AccelerometerOutput::Rate1_6 => 0b1011,
            AccelerometerOutput::Rate12_5 => 0b0001,
            AccelerometerOutput::Rate26 => 0b0010,
            AccelerometerOutput::Rate52 => 0b0011,
            AccelerometerOutput::Rate104 => 0b0100,
            AccelerometerOutput::Rate208 => 0b0101,
            AccelerometerOutput::Rate416 => 0b0110,
            AccelerometerOutput::Rate833 => 0b0111,
            AccelerometerOutput::Rate1_66k => 0b1000,
            AccelerometerOutput::Rate3_33k => 0b1001,
            AccelerometerOutput::Rate6_66k => 0b1010,
        }
    }

    fn mask() -> u8 {
        0x0F
    }

    fn bit_offset() -> u8 {
        4
    }
}

/// Accelerometer full-scale selection, bits [3:2] of its control
/// register.
#[derive(Debug, Clone, Copy, PartialEq, Eq, Structural)]
pub enum AccelerometerScale {
    G02,
    /// Old full-scale mode only. Is 2g with new full-scale mode.
    G16,
    G04,
    G08,
}

impl RegisterOption for AccelerometerScale {
    open spec fn spec_mask() -> u8 {
        0x03
    }

    open spec fn spec_offset() -> u8 {
        2
    }

    open spec fn spec_value(self) -> u8 {
        match self {
            AccelerometerScale::G02 => 0b00,
            AccelerometerScale::G16 => 0b01,
            AccelerometerScale::G04 => 0b10,
            AccelerometerScale::G08 => 0b11,
        }
    }

    open spec fn spec_from_bits(bits: u8) -> Option<Self> {
        if bits == 0b00 {
            Some(AccelerometerScale::G02)
        } else if bits == 0b01 {
            Some(AccelerometerScale::G16)
        } else if bits == 0b10 {
            Some(AccelerometerScale::G04)
        } else if bits == 0b11 {
            Some(AccelerometerScale::G08)
        } else {
            None
        }
    }

    proof fn lemma_well_formed() {
        assert((0x03u8 << 2) >> 2 == 0x03u8) by (bit_vector);
        assert forall|v: Self| (#[trigger] v.spec_value()) & Self::spec_mask() == v.spec_value() by {
            let x = v.spec_value();
            assert(x <= 0x03);
            assert(x & 0x03u8 == x) by (bit_vector)
                requires
                    x <= 0x03,
            ;
        }
    }

    fn value(&self) -> u8 {
        match *self {
            AccelerometerScale::G02 => 0b00,
            AccelerometerScale::G16 => 0b01,
            AccelerometerScale::G04 => 0b10,
            AccelerometerScale::G08 => 0b11,
        }
    }

    fn mask() -> u8 {
        0x03
    }

    fn bit_offset() -> u8 {
        2
    }
}

impl AccelerometerScale {
    /// Sensitivity of the range, in micro-g per least significant bit
    /// (the datasheet's 0.061/0.122/0.244/0.488 mg per LSB, scaled by
    /// 1000 to stay exact).
    pub open spec fn spec_scale_ug(self) -> int {
        match self {
            AccelerometerScale::G02 => 61,
            AccelerometerScale::G04 => 122,
            AccelerometerScale::G08 => 244,
            AccelerometerScale::G16 => 488,
        }
    }

    /// Sensitivity of the range in micro-g per least significant bit.
    pub fn scale(&self) -> (r: u32)
        ensures
            r as int == self.spec_scale_ug(),
    {
        match *self {
            AccelerometerScale::G02 => 61,
            AccelerometerScale::G04 => 122,
            AccelerometerScale::G08 => 244,
            AccelerometerScale::G16 => 488,
        }
    }

    /// Decode this field out of a whole register byte. Errs exactly when
    /// the field's bits spell no defined variant's code.
    pub fn try_from(value: u8) -> (r: Result<Self, RegisterError>)
        ensures
            match r {
                Ok(v) => spec_decode_field::<Self>(value) == Some(v),
                Err(_) => spec_decode_field::<Self>(value) is None,
            },
    {
        let bits = (value >> 2) & 0x03;
        proof {
            assert((value >> 2) & 0x03u8 <= 0x03) by (bit_vector);
        }
        match bits {
            0b00 => Ok(AccelerometerScale::G02),
            0b01 => Ok(AccelerometerScale::G16),
            0b10 => Ok(AccelerometerScale::G04),
            0b11 => Ok(AccelerometerScale::G08),
            _ => Err(RegisterError::ConversionError),
        }
    }
}

/// Gyroscope output data rate, bits [7:4] of its control register.
#[derive(Debug, Clone, Copy, PartialEq, Eq, Structural)]
pub enum GyroscopeOutput {
    PowerDown,
    Rate12_5,
    Rate26,
    Rate52,
    Rate104,
    Rate208,
    Rate416,
    Rate833,
    Rate1_66k,
    Rate3_33k,
    Rate6_66k,
}

impl RegisterOption for GyroscopeOutput {
    open spec fn spec_mask() -> u8 {
        0x0F
    }

    open spec fn spec_offset() -> u8 {
        4
    }

    open spec fn spec_value(self) -> u8 {
        match self {
            GyroscopeOutput::PowerDown => 0b0000,
            GyroscopeOutput::Rate12_5 => 0b0001,
            GyroscopeOutput::Rate26 => 0b0010,
            GyroscopeOutput::Rate52 => 0b0011,
            GyroscopeOutput::Rate104 => 0b0100,
            GyroscopeOutput::Rate208 => 0b0101,
            GyroscopeOutput::Rate416 => 0b0110,
            GyroscopeOutput::Rate833 => 0b0111,
            GyroscopeOutput::Rate1_66k => 0b1000,
            GyroscopeOutput::Rate3_33k => 0b1001,
            GyroscopeOutput::Rate6_66k => 0b1010,
        }
    }

    open spec fn spec_from_bits(bits: u8) -> Option<Self> {
        if bits == 0b0000 {
            Some(GyroscopeOutput::PowerDown)
        } else if bits == 0b0001 {
            Some(GyroscopeOutput::Rate12_5)
        } else if bits == 0b0010 {
            Some(GyroscopeOutput::Rate26)
        } else if bits == 0b0011 {
            Some(GyroscopeOutput::Rate52)
        } else if bits == 0b0100 {
            Some(GyroscopeOutput::Rate104)
        } else if bits == 0b0101 {
            Some(GyroscopeOutput::Rate208)
        } else if bits == 0b0110 {
            Some(GyroscopeOutput::Rate416)
        } else if bits == 0b0111 {
            Some(GyroscopeOutput::Rate833)
        } else if bits == 0b1000 {
            Some(GyroscopeOutput::Rate1_66k)
        } else if bits == 0b1001 {
            Some(GyroscopeOutput::Rate3_33k)
        } else if bits == 0b1010 {
            Some(GyroscopeOutput::Rate6_66k)
        } else {
            None
        }
    }

    proof fn lemma_well_formed() {
        assert((0x0Fu8 << 4) >> 4 == 0x0Fu8) by (bit_vector);
        assert forall|v: Self| (#[trigger] v.spec_value()) & Self::spec_mask() == v.spec_value() by {
            let x = v.spec_value();
            assert(x <= 0x0F);
            assert(x & 0x0Fu8 == x) by (bit_vector)
                requires
                    x <= 0x0F,
            ;
        }
    }

    fn value(&self) -> u8 {
        match *self {
            GyroscopeOutput::PowerDown => 0b0000,
            GyroscopeOutput::Rate12_5 => 0b0001,
            GyroscopeOutput::Rate26 => 0b0010,
            GyroscopeOutput::Rate52 => 0b0011,
            GyroscopeOutput::Rate104 => 0b0100,
            GyroscopeOutput::Rate208 => 0b0101,
            GyroscopeOutput::Rate416 => 0b0110,
            GyroscopeOutput::Rate833 => 0b0111,
            GyroscopeOutput::Rate1_66k => 0b1000,
            GyroscopeOutput::Rate3_33k => 0b1001,
            GyroscopeOutput::Rate6_66k => 0b1010,
        }
    }

    fn mask() -> u8 {
        0x0F
    }

    fn bit_offset() -> u8 {
        4
    }
}

/// Bandwidth of the accelerometer's second digital low pass filter,
/// bits [7:5] of its control register.
#[derive(Debug, Clone, Copy, PartialEq, Eq, Structural)]
pub enum Bandwidth {
    OdrDiv4,
    OdrDiv10,
    OdrDiv20,
    OdrDiv45,
    OdrDiv100,
    OdrDiv200,
    OdrDiv400,
    OdrDiv800,
}

impl RegisterOption for Bandwidth {
    open spec fn spec_mask() -> u8 {
        0b111
    }

    open spec fn spec_offset() -> u8 {
        5
    }

    open spec fn spec_value(self) -> u8 {
        match self {
            Bandwidth::OdrDiv4 => 0b000,
            Bandwidth::OdrDiv10 => 0b001,
            Bandwidth::OdrDiv20 => 0b010,
            Bandwidth::OdrDiv45 => 0b011,
            Bandwidth::OdrDiv100 => 0b100,
            Bandwidth::OdrDiv200 => 0b101,
            Bandwidth::OdrDiv400 => 0b110,
            Bandwidth::OdrDiv800 => 0b111,
        }
    }

    open spec fn spec_from_bits(bits: u8) -> Option<Self> {
        if bits == 0b000 {
            Some(Bandwidth::OdrDiv4)
        } else if bits == 0b001 {
            Some(Bandwidth::OdrDiv10)
        } else if bits == 0b010 {
            Some(Bandwidth::OdrDiv20)
        } else if bits == 0b011 {
            Some(Bandwidth::OdrDiv45)
        } else if bits == 0b100 {
            Some(Bandwidth::OdrDiv100)
        } else if bits == 0b101 {
            Some(Bandwidth::OdrDiv200)
        } else if bits == 0b110 {
            Some(Bandwidth::OdrDiv400)
        } else if bits == 0b111 {
            Some(Bandwidth::OdrDiv800)
        } else {
            None
        }
    }

    proof fn lemma_well_formed() {
        assert((0b111u8 << 5) >> 5 == 0b111u8) by (bit_vector);
        assert forall|v: Self| (#[trigger] v.spec_value()) & Self::spec_mask() == v.spec_value() by {
            let x = v.spec_value();
            assert(x <= 0b111);
            assert(x & 0b111u8 == x) by (bit_vector)
                requires
                    x <= 0b111,
            ;
        }
    }

    fn value(&self) -> u8 {
        match *self {
            Bandwidth::OdrDiv4 => 0b000,
            Bandwidth::OdrDiv10 => 0b001,
            Bandwidth::OdrDiv20 => 0b010,
            Bandwidth::OdrDiv45 => 0b011,
            Bandwidth::OdrDiv100 => 0b100,
            Bandwidth::OdrDiv200 => 0b101,
            Bandwidth::OdrDiv400 => 0b110,
            Bandwidth::OdrDiv800 => 0b111,
        }
    }

    fn mask() -> u8 {
        0b111
    }

    fn bit_offset() -> u8 {
        5
    }
}

/// Gyroscope full-scale selection, bits [3:1] of its control register.
#[derive(Debug, Clone, Copy, PartialEq, Eq, Structural)]
pub enum GyroscopeFullScale {
    Dps125,
    Dps250,
    Dps500,
    Dps1000,
    Dps2000,
}

impl RegisterOption for GyroscopeFullScale {
    open spec fn spec_mask() -> u8 {
        0b111
    }

    open spec fn spec_offset() -> u8 {
        1
    }

    open spec fn spec_value(self) -> u8 {
        match self {
            GyroscopeFullScale::Dps125 => 0b001,
            GyroscopeFullScale::Dps250 => 0b000,
            GyroscopeFullScale::Dps500 => 0b010,
            GyroscopeFullScale::Dps1000 => 0b100,
            GyroscopeFullScale::Dps2000 => 0b110,
        }
    }

    open spec fn spec_from_bits(bits: u8) -> Option<Self> {
        if bits == 0b001 {
            Some(GyroscopeFullScale::Dps125)
        } else if bits == 0b000 {
            Some(GyroscopeFullScale::Dps250)
        } else if bits == 0b010 {
            Some(GyroscopeFullScale::Dps500)
        } else if bits == 0b100 {
            Some(GyroscopeFullScale::Dps1000)
        } else if bits == 0b110 {
            Some(GyroscopeFullScale::Dps2000)
        } else {
            None
        }
    }

    proof fn lemma_well_formed() {
        assert((0b111u8 << 1) >> 1 == 0b111u8) by (bit_vector);
        assert forall|v: Self| (#[trigger] v.spec_value()) & Self::spec_mask() == v.spec_value() by {
            let x = v.spec_value();
            assert(x <= 0b111);
            assert(x & 0b111u8 == x) by (bit_vector)
                requires
                    x <= 0b111,
            ;
        }
    }

    fn value(&self) -> u8 {
        match *self {
            GyroscopeFullScale::Dps125 => 0b001,
            GyroscopeFullScale::Dps250 => 0b000,
            GyroscopeFullScale::Dps500 => 0b010,
            GyroscopeFullScale::Dps1000 => 0b100,
            GyroscopeFullScale::Dps2000 => 0b110,
        }
    }

    fn mask() -> u8 {
        0b111
    }

    fn bit_offset() -> u8 {
        1
    }
}

impl GyroscopeFullScale {
    /// Sensitivity of the range, in micro-degrees per second per least
    /// significant bit (the datasheet's 4.375/8.75/17.5/35/70
    /// milli-degrees per second per LSB, scaled by 1000 to stay exact).
    pub open spec fn spec_scale_udps(self) -> int {
        match self {
            GyroscopeFullScale::Dps125 => 4375,
            GyroscopeFullScale::Dps250 => 8750,
            GyroscopeFullScale::Dps500 => 17500,
            GyroscopeFullScale::Dps1000 => 35000,
            GyroscopeFullScale::Dps2000 => 70000,
        }
    }

    /// Sensitivity of the range in micro-degrees per second per least
    /// significant bit.
    pub fn scale(&self) -> (r: u32)
        ensures
            r as int == self.spec_scale_udps(),
    {
        match *self {
            GyroscopeFullScale::Dps125 => 4375,
            GyroscopeFullScale::Dps250 => 8750,
            GyroscopeFullScale::Dps500 => 17500,
            GyroscopeFullScale::Dps1000 => 35000,
            GyroscopeFullScale::Dps2000 => 70000,
        }
    }

    /// Decode this field out of a whole register byte. Errs exactly when
    /// the field's bits spell no defined variant's code — the reserved
    /// patterns of this three-bit field among them.
    pub fn try_from(value: u8) -> (r: Result<Self, RegisterError>)
        ensures
            match r {
                Ok(v) => spec_decode_field::<Self>(value) == Some(v),
                Err(_) => spec_decode_field::<Self>(value) is None,
            },
    {
        let bits = (value >> 1) & 0b111;
        match bits {
            0b001 => Ok(GyroscopeFullScale::Dps125),
            0b000 => Ok(GyroscopeFullScale::Dps250),
            0b010 => Ok(GyroscopeFullScale::Dps500),
            0b100 => Ok(GyroscopeFullScale::Dps1000),
            0b110 => Ok(GyroscopeFullScale::Dps2000),
            _ => Err(RegisterError::ConversionError),
        }
    }
}

/// Bit positions of the third control register's flags.
#[derive(Debug, Clone, Copy, PartialEq, Eq, Structural)]
pub enum Ctrl3C {
    Boot,
    BlockDataUpdate,
    InterruptActivationLevel,
    InterruptPadOutput,
    SpiSerialInterfaceMode,
    AutoIncrement,
    SoftwareReset,
}

impl Ctrl3C {
    /// The flag's bit position within its register.
    pub open spec fn spec_bit(self) -> u8 {
        match self {
            Ctrl3C::Boot => 7,
            Ctrl3C::BlockDataUpdate => 6,
            Ctrl3C::InterruptActivationLevel => 5,
            Ctrl3C::InterruptPadOutput => 4,
            Ctrl3C::SpiSerialInterfaceMode => 3,
            Ctrl3C::AutoIncrement => 2,
            Ctrl3C::SoftwareReset => 0,
        }
    }

    /// Executable bit position lookup.
    pub fn bit(self) -> (r: u8)
        ensures
            r == self.spec_bit(),
    {
        match self {
            Ctrl3C::Boot => 7,
            Ctrl3C::BlockDataUpdate => 6,
            Ctrl3C::InterruptActivationLevel => 5,
            Ctrl3C::InterruptPadOutput => 4,
            Ctrl3C::SpiSerialInterfaceMode => 3,
            Ctrl3C::AutoIncrement => 2,
            Ctrl3C::SoftwareReset => 0,
        }
    }
}

/// Bit positions of the accelerometer's auxiliary control register,
/// among them the accelerometer performance-mode flag.
#[derive(Debug, Clone, Copy, PartialEq, Eq, Structural)]
pub enum Ctrl6C {
    GyroEdgeTrigger,
    GyroLevelTrigger,
    GyroLevelLatched,
    AccelHighPerformanceMode,
    AccelOffsetWeight,
    GyroBandwidth2,
    GyroBandwidth1,
    GyroBandwidth0,
}

impl Ctrl6C {
    /// The flag's bit position within its register.
    pub open spec fn spec_bit(self) -> u8 {
        match self {
            Ctrl6C::GyroEdgeTrigger => 7,
            Ctrl6C::GyroLevelTrigger => 6,
            Ctrl6C::GyroLevelLatched => 5,
            Ctrl6C::AccelHighPerformanceMode => 4,
            Ctrl6C::AccelOffsetWeight => 3,
            Ctrl6C::GyroBandwidth2 => 2,
            Ctrl6C::GyroBandwidth1 => 1,
            Ctrl6C::GyroBandwidth0 => 0,
        }
    }

    /// Executable bit position lookup.
    pub fn bit(self) -> (r: u8)
        ensures
            r == self.spec_bit(),
    {
        match self {
            Ctrl6C::GyroEdgeTrigger => 7,
            Ctrl6C::GyroLevelTrigger => 6,
            Ctrl6C::GyroLevelLatched => 5,
            Ctrl6C::AccelHighPerformanceMode => 4,
            Ctrl6C::AccelOffsetWeight => 3,
            Ctrl6C::GyroBandwidth2 => 2,
            Ctrl6C::GyroBandwidth1 => 1,
            Ctrl6C::GyroBandwidth0 => 0,
        }
    }
}

/// Bit positions of the gyroscope's auxiliary control register, among
/// them the gyroscope performance-mode flag.
#[derive(Debug, Clone, Copy, PartialEq, Eq, Structural)]
pub enum Ctrl7G {
    GyroHighPerformanceMode,
    GyroHighPassFilter,
    GyroHighPassCutoff1,
    GyroHighPassCutoff0,
    EnableOISChainSPI2,
    EnableAccelOffset,
    EnableOISChainPrimary,
}

impl Ctrl7G {
    /// The flag's bit position within its register.
    pub open spec fn spec_bit(self) -> u8 {
        match self {
            Ctrl7G::GyroHighPerformanceMode => 7,
            Ctrl7G::GyroHighPassFilter => 6,
            Ctrl7G::GyroHighPassCutoff1 => 5,
            Ctrl7G::GyroHighPassCutoff0 => 4,
            Ctrl7G::EnableOISChainSPI2 => 2,
            Ctrl7G::EnableAccelOffset => 1,
            Ctrl7G::EnableOISChainPrimary => 0,
        }
    }

    /// Executable bit position lookup.
    pub fn bit(self) -> (r: u8)
        ensures
            r == self.spec_bit(),
    {
        match self {
            Ctrl7G::GyroHighPerformanceMode => 7,
            Ctrl7G::GyroHighPassFilter => 6,
            Ctrl7G::GyroHighPassCutoff1 => 5,
            Ctrl7G::GyroHighPassCutoff0 => 4,
            Ctrl7G::EnableOISChainSPI2 => 2,
            Ctrl7G::EnableAccelOffset => 1,
            Ctrl7G::EnableOISChainPrimary => 0,
        }
    }
}

/// Rejection law: a register byte whose field bits match no defined
/// variant's code decodes to no variant — an unknown bit pattern is
/// reported, never silently defaulted.
pub proof fn lemma_decode_rejects_unknown<RO: RegisterOption>(byte: u8)
    requires
        forall|v: RO| (#[trigger] v.spec_value()) != spec_field_bits::<RO>(byte),
    ensures
        spec_decode_field::<RO>(byte) is None,
{
    RO::lemma_well_formed();
    match spec_decode_field::<RO>(byte) {
        Some(v) => {
            assert(v.spec_value() == spec_field_bits::<RO>(byte));
            assert(false);
        }
        None => {}
    }
}

} // verus!
