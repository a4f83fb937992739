use vstd::prelude::*;

verus! {

const OPERATION_MASK: u16 = 0x000F;

const LOAD_TYPE_MASK: u16 = 0x0030;

const LOAD_LENGTH_MASK: u16 = 0x00C0;

const SOURCE_MASK: u16 = 0x0F00;

const DESTINATION_MASK: u16 = 0xF000;

/// The family a decoded word belongs to. A word that breaks the encoding
/// grammar is `Invalid`; nothing else reports the failure.
#[derive(Debug, Clone, Copy, PartialEq, Eq, PartialOrd, Structural)]
pub enum InstructionType {
    Nop,
    Invalid,
    Operation,
    Load,
}

/// What the operation nibble selects. The codes 0 to 14 are the ALU and
/// stack operations in declaration order, 15 is `Nop`.
#[derive(Debug, Clone, Copy, PartialEq, Eq, PartialOrd, Structural)]
pub enum Operation {
    Sum,
    Subtract,
    Multiply,
    Divide,
    And,
    Or,
    Nand,
    Nor,
    Xor,
    Bsl,
    Bsr,
    Rlr,
    PopStack,
    PushStack,
    SwInterrupt,
    Nop,
    Invalid,
}

impl From<u8> for Operation {
    /// The operation with code `value`; `Invalid` for a value above 15.
    fn from(value: u8) -> (decoded: Self)
        ensures
            decoded == operation_of(value),
    {
        match value {
            0 => Self::Sum,
            1 => Self::Subtract,
            2 => Self::Multiply,
            3 => Self::Divide,
            4 => Self::And,
            5 => Self::Or,
            6 => Self::Nand,
            7 => Self::Nor,
            8 => Self::Xor,
            9 => Self::Bsl,
            10 => Self::Bsr,
            11 => Self::Rlr,
            12 => Self::PopStack,
            13 => Self::PushStack,
            14 => Self::SwInterrupt,
            15 => Self::Nop,
            _ => Self::Invalid,
        }
    }
}

/// The operation that the code `code` selects. A code beyond the field's width selects `Invalid`.
pub open spec fn operation_of(code: u8) -> Operation {
    match code {
        0 => Operation::Sum,
        1 => Operation::Subtract,
        2 => Operation::Multiply,
        3 => Operation::Divide,
        4 => Operation::And,
        5 => Operation::Or,
        6 => Operation::Nand,
        7 => Operation::Nor,
        8 => Operation::Xor,
        9 => Operation::Bsl,
        10 => Operation::Bsr,
        11 => Operation::Rlr,
        12 => Operation::PopStack,
        13 => Operation::PushStack,
        14 => Operation::SwInterrupt,
        15 => Operation::Nop,
        _ => Operation::Invalid,
    }
}

impl vstd::std_specs::convert::FromSpecImpl<u8> for Operation {
    open spec fn obeys_from_spec() -> bool {
        true
    }

    open spec fn from_spec(v: u8) -> Self {
        operation_of(v)
    }
}

/// A register named by a source or destination nibble. The codes 0 to 14
/// are the registers in declaration order, 15 is `NoRegister`: no register
/// at all.
#[derive(Debug, Clone, Copy, PartialEq, Eq, PartialOrd, Structural)]
pub enum Register {
    A,
    X,
    Y,
    B,
    W,
    Z,
    C,
    D,
    Pc,
    Sb,
    Sp,
    Fl,
    Reserved,
    Reserved1,
    Reserved2,
    NoRegister,
    Invalid,
}

impl From<u8> for Register {
    /// The register with code `value`; `Invalid` for a value above 15.
    fn from(value: u8) -> (decoded: Self)
        ensures
            decoded == register_of(value),
    {
        match value {
            0 => Self::A,
            1 => Self::X,
            2 => Self::Y,
            3 => Self::B,
            4 => Self::W,
            5 => Self::Z,
            6 => Self::C,
            7 => Self::D,
            8 => Self::Pc,
            9 => Self::Sb,
            10 => Self::Sp,
            11 => Self::Fl,
            12 => Self::Reserved,
            13 => Self::Reserved1,
            14 => Self::Reserved2,
            15 => Self::NoRegister,
            _ => Self::Invalid,
        }
    }
}

/// The register that the code `code` names. A code beyond the field's width selects `Invalid`.
pub open spec fn register_of(code: u8) -> Register {
    match code {
        0 => Register::A,
        1 => Register::X,
        2 => Register::Y,
        3 => Register::B,
        4 => Register::W,
        5 => Register::Z,
        6 => Register::C,
        7 => Register::D,
        8 => Register::Pc,
        9 => Register::Sb,
        10 => Register::Sp,
        11 => Register::Fl,
        12 => Register::Reserved,
        13 => Register::Reserved1,
        14 => Register::Reserved2,
        15 => Register::NoRegister,
        _ => Register::Invalid,
    }
}

impl vstd::std_specs::convert::FromSpecImpl<u8> for Register {
    open spec fn obeys_from_spec() -> bool {
        true
    }

    open spec fn from_spec(v: u8) -> Self {
        register_of(v)
    }
}

/// Where a load takes its operand from. The codes 0 to 3 are the variants
/// in declaration order; `NoLoad` marks a word that loads nothing.
#[derive(Debug, Clone, Copy, PartialEq, Eq, PartialOrd, Structural)]
pub enum LoadType {
    Register,
    Ram,
    Immediate,
    NoLoad,
    Invalid,
}

impl From<u8> for LoadType {
    /// The load type with code `value`; `Invalid` for a value above 3.
    fn from(value: u8) -> (decoded: Self)
        ensures
            decoded == load_type_of(value),
    {
        match value {
            0 => Self::Register,
            1 => Self::Ram,
            2 => Self::Immediate,
            3 => Self::NoLoad,
            _ => Self::Invalid,
        }
    }
}

/// The load type that the code `code` selects. A code beyond the field's width selects `Invalid`.
pub open spec fn load_type_of(code: u8) -> LoadType {
    match code {
        0 => LoadType::Register,
        1 => LoadType::Ram,
        2 => LoadType::Immediate,
        3 => LoadType::NoLoad,
        _ => LoadType::Invalid,
    }
}

impl vstd::std_specs::convert::FromSpecImpl<u8> for LoadType {
    open spec fn obeys_from_spec() -> bool {
        true
    }

    open spec fn from_spec(v: u8) -> Self {
        load_type_of(v)
    }
}

/// The operand width of a load. The codes 0 to 3 are the variants in
/// declaration order.
#[derive(Debug, Clone, Copy, PartialEq, Eq, PartialOrd, Structural)]
pub enum LoadSize {
    Byte,
    Word,
    DWord,
    QWord,
    Invalid,
}

impl From<u8> for LoadSize {
    /// The load size with code `value`; `Invalid` for a value above 3.
    fn from(value: u8) -> (decoded: Self)
        ensures
            decoded == load_size_of(value),
    {
        match value {
            0 => Self::Byte,
            1 => Self::Word,
            2 => Self::DWord,
            3 => Self::QWord,
            _ => Self::Invalid,
        }
    }
}

/// The load size that the code `code` selects. A code beyond the field's width selects `Invalid`.
pub open spec fn load_size_of(code: u8) -> LoadSize {
    match code {
        0 => LoadSize::Byte,
        1 => LoadSize::Word,
        2 => LoadSize::DWord,
        3 => LoadSize::QWord,
        _ => LoadSize::Invalid,
    }
}

impl vstd::std_specs::convert::FromSpecImpl<u8> for LoadSize {
    open spec fn obeys_from_spec() -> bool {
        true
    }

    open spec fn from_spec(v: u8) -> Self {
        load_size_of(v)
    }
}

/// The five raw fields of `w` by position, lowest first: operation, load
/// type, load size, source, destination. From bit 0 upwards a word holds four
/// bits of operation, two of load type, two of load size, four of source and
/// four of destination.
pub open spec fn raw_fields(w: u16) -> (u8, u8, u8, u8, u8) {
    (
        (w % 16) as u8,
        (w / 16 % 4) as u8,
        (w / 64 % 4) as u8,
        (w / 256 % 16) as u8,
        (w / 4096) as u8,
    )
}

/// Whether each field fits the width the layout gives it.
pub open spec fn fields_in_range(f: (u8, u8, u8, u8, u8)) -> bool {
    &&& f.0 < 16
    &&& f.1 < 4
    &&& f.2 < 4
    &&& f.3 < 16
    &&& f.4 < 16
}

/// The number that holds the given fields, each weighted by its position.
pub open spec fn join_fields(f: (u8, u8, u8, u8, u8)) -> int {
    f.0 + 16 * f.1 + 64 * f.2 + 256 * f.3 + 4096 * f.4
}

/// The word made by shifting each field up to its position and or-ing the
/// five together: the shifts of [`Instruction::split_bits`] undone.
pub open spec fn pack_fields(f: (u8, u8, u8, u8, u8)) -> u16 {
    let operation = f.0 as u16;
    let load_type = (f.1 as u16) << 4;
    let load_size = (f.2 as u16) << 6;
    let source = (f.3 as u16) << 8;
    let destination = (f.4 as u16) << 12;
    operation | load_type | load_size | source | destination
}

/// What an [`Instruction`] holds: the five typed fields and the family
/// derived from them.
pub struct InstructionView {
    pub operation: Operation,
    pub load_type: LoadType,
    pub load_size: LoadSize,
    pub source: Register,
    pub destination: Register,
    pub family: InstructionType,
}

/// The encoding grammar: a word with these fields is rejected when it names
/// an operation and a load at once, when it names neither, when source and
/// destination are the same register, or when anything but an immediate load
/// carries a size other than `QWord`.
pub open spec fn disqualified(
    operation: Operation,
    load_type: LoadType,
    load_size: LoadSize,
    source: Register,
    destination: Register,
) -> bool {
    ||| operation != Operation::Nop && load_type != LoadType::NoLoad
    ||| operation == Operation::Nop && load_type == LoadType::NoLoad
    ||| source == destination
    ||| load_type != LoadType::Immediate && load_size != LoadSize::QWord
}

/// The family of a word with these fields that is neither of the two
/// reserved words.
pub open spec fn family_of(
    operation: Operation,
    load_type: LoadType,
    load_size: LoadSize,
    source: Register,
    destination: Register,
) -> InstructionType {
    if disqualified(operation, load_type, load_size, source, destination) {
        InstructionType::Invalid
    } else if load_type != LoadType::NoLoad {
        InstructionType::Load
    } else {
        InstructionType::Operation
    }
}

/// What the reserved word `0xFFFF` decodes to: the canonical no-operation.
pub open spec fn nop_sentinel() -> InstructionView {
    InstructionView {
        operation: Operation::Nop,
        load_type: LoadType::NoLoad,
        load_size: LoadSize::QWord,
        source: Register::NoRegister,
        destination: Register::NoRegister,
        family: InstructionType::Nop,
    }
}

/// What the reserved word `0x0000` decodes to: every field invalid.
pub open spec fn invalid_sentinel() -> InstructionView {
    InstructionView {
        operation: Operation::Invalid,
        load_type: LoadType::Invalid,
        load_size: LoadSize::Invalid,
        source: Register::Invalid,
        destination: Register::Invalid,
        family: InstructionType::Invalid,
    }
}

/// The typed fields of `w` looked up one by one, with the family the grammar
/// gives them. The two reserved words are not treated specially here.
pub open spec fn decode_fields(w: u16) -> InstructionView {
    let raw = raw_fields(w);
    let operation = operation_of(raw.0);
    let load_type = load_type_of(raw.1);
    let load_size = load_size_of(raw.2);
    let source = register_of(raw.3);
    let destination = register_of(raw.4);
    InstructionView {
        operation,
        load_type,
        load_size,
        source,
        destination,
        family: family_of(operation, load_type, load_size, source, destination),
    }
}

/// The instruction that the word `w` encodes. The two reserved words come
/// first; every other word is decoded field by field.
pub open spec fn decode(w: u16) -> InstructionView {
    if w == 0xFFFF {
        nop_sentinel()
    } else if w == 0 {
        invalid_sentinel()
    } else {
        decode_fields(w)
    }
}

/// A decoded instruction word. It is made by
/// [`Instruction::parse_instruction`] alone and never changes afterwards.
#[derive(Debug, Clone, Copy, PartialEq, Eq, PartialOrd, Structural)]
pub struct Instruction {
    operation: Operation,
    load_type: LoadType,
    load_size: LoadSize,
    source: Register,
    destination: Register,
    family: InstructionType,
}

impl View for Instruction {
    type V = InstructionView;

    closed spec fn view(&self) -> InstructionView {
        InstructionView {
            operation: self.operation,
            load_type: self.load_type,
            load_size: self.load_size,
            source: self.source,
            destination: self.destination,
            family: self.family,
        }
    }
}

impl Instruction {
    /// Well-formedness: the instruction is the decoding of some word, so its
    /// family is the one the grammar gives its fields. It holds of every
    /// instruction, and each accessor says so.
    pub open spec fn wf(&self) -> bool {
        exists|w: u16| self@ == #[trigger] decode(w)
    }

    #[verifier::type_invariant]
    spec fn decoded_from_a_word(&self) -> bool {
        self.wf()
    }

    /// Decodes `instruction`. Every word decodes; one that breaks the
    /// encoding grammar comes back with the family `Invalid`.
    pub fn parse_instruction(instruction: u16) -> (decoded: Self)
        ensures
            decoded@ == decode(instruction),
            decoded.wf(),
    {
        if instruction == 0xFFFF {
            return Self {
                operation: Operation::Nop,
                load_type: LoadType::NoLoad,
                load_size: LoadSize::QWord,
                source: Register::NoRegister,
                destination: Register::NoRegister,
                family: InstructionType::Nop,
            };
        } else if instruction == 0 {
            return Self {
                operation: Operation::Invalid,
                load_type: LoadType::Invalid,
                load_size: LoadSize::Invalid,
                source: Register::Invalid,
                destination: Register::Invalid,
                family: InstructionType::Invalid,
            };
        }
        let parts = Self::split_bits(instruction);

        let operation = Operation::from(parts.0);
        let load_type = LoadType::from(parts.1);
        let load_size = LoadSize::from(parts.2);
        let source = Register::from(parts.3);
        let destination = Register::from(parts.4);

        let family = if (operation != Operation::Nop && load_type != LoadType::NoLoad)
            || (operation == Operation::Nop && load_type == LoadType::NoLoad)
            || (source == destination)
            || (load_type != LoadType::Immediate && load_size != LoadSize::QWord)
        {
            InstructionType::Invalid
        } else if load_type != LoadType::NoLoad {
            InstructionType::Load
        } else {
            InstructionType::Operation
        };

        Self { operation, load_type, load_size, source, destination, family }
    }

    /// Cuts `instruction` into its five raw fields, in the order operation,
    /// load type, load size, source, destination. Nothing is validated.
    pub fn split_bits(instruction: u16) -> (parts: (u8, u8, u8, u8, u8))
        ensures
            parts == raw_fields(instruction),
            fields_in_range(parts),
            join_fields(parts) == instruction,
            pack_fields(parts) == instruction,
    {
        let operation: u8 = (instruction & OPERATION_MASK) as u8;
        let load_type: u8 = ((instruction & LOAD_TYPE_MASK) >> 4) as u8;
        let load_size: u8 = ((instruction & LOAD_LENGTH_MASK) >> 6) as u8;
        let source: u8 = ((instruction & SOURCE_MASK) >> 8) as u8;
        let destination: u8 = ((instruction & DESTINATION_MASK) >> 12) as u8;
        proof {
            lemma_masks_select_fields(instruction);
            lemma_split_then_join(instruction);
        }
        (operation, load_type, load_size, source, destination)
    }

    /// The operation the word names.
    pub fn operation(&self) -> (operation: Operation)
        ensures
            operation == self@.operation,
            self.wf(),
    {
        proof {
            use_type_invariant(self);
        }
        self.operation
    }

    /// Where the word loads from, if it loads.
    pub fn load_type(&self) -> (load_type: LoadType)
        ensures
            load_type == self@.load_type,
            self.wf(),
    {
        proof {
            use_type_invariant(self);
        }
        self.load_type
    }

    /// The operand width the word carries.
    pub fn load_size(&self) -> (load_size: LoadSize)
        ensures
            load_size == self@.load_size,
            self.wf(),
    {
        proof {
            use_type_invariant(self);
        }
        self.load_size
    }

    /// The register the word reads.
    pub fn source(&self) -> (source: Register)
        ensures
            source == self@.source,
            self.wf(),
    {
        proof {
            use_type_invariant(self);
        }
        self.source
    }

    /// The register the word writes.
    pub fn destination(&self) -> (destination: Register)
        ensures
            destination == self@.destination,
            self.wf(),
    {
        proof {
            use_type_invariant(self);
        }
        self.destination
    }

    /// The family of the word; `Invalid` for a word that breaks the grammar.
    pub fn family(&self) -> (family: InstructionType)
        ensures
            family == self@.family,
            self.wf(),
    {
        proof {
            use_type_invariant(self);
        }
        self.family
    }
}

/// Masking and shifting a word picks the same fields as dividing it by the
/// weight of each position.
proof fn lemma_masks_select_fields(w: u16)
    ensures
        (w & OPERATION_MASK) as u8 == raw_fields(w).0,
        ((w & LOAD_TYPE_MASK) >> 4) as u8 == raw_fields(w).1,
        ((w & LOAD_LENGTH_MASK) >> 6) as u8 == raw_fields(w).2,
        ((w & SOURCE_MASK) >> 8) as u8 == raw_fields(w).3,
        ((w & DESTINATION_MASK) >> 12) as u8 == raw_fields(w).4,
{
    assert((w & 0x000F) as u8 == (w % 16) as u8) by (bit_vector);
    assert(((w & 0x0030) >> 4) as u8 == (w / 16 % 4) as u8) by (bit_vector);
    assert(((w & 0x00C0) >> 6) as u8 == (w / 64 % 4) as u8) by (bit_vector);
    assert(((w & 0x0F00) >> 8) as u8 == (w / 256 % 16) as u8) by (bit_vector);
    assert(((w & 0xF000) >> 12) as u8 == (w / 4096) as u8) by (bit_vector);
}

/// Splitting loses nothing: each field of a word fits its width, and the
/// fields put back at their positions give the word again, whether they are
/// added up by weight or shifted and or-ed.
pub proof fn lemma_split_then_join(w: u16)
    ensures
        fields_in_range(raw_fields(w)),
        join_fields(raw_fields(w)) == w,
        pack_fields(raw_fields(w)) == w,
{
    assert(((w % 16) as u8 as u16) | (((w / 16 % 4) as u8 as u16) << 4) | (((w / 64 % 4) as u8 as u16)
        << 6) | (((w / 256 % 16) as u8 as u16) << 8) | (((w / 4096) as u8 as u16) << 12) == w)
        by (bit_vector);
    assert(w % 16 < 16 && w / 16 % 4 < 4 && w / 64 % 4 < 4 && w / 256 % 16 < 16 && w / 4096 < 16)
        by (bit_vector);
    assert(w % 16 + 16 * (w / 16 % 4) + 64 * (w / 64 % 4) + 256 * (w / 256 % 16) + 4096 * (w
        / 4096) == w) by (bit_vector);
}

/// Joining loses nothing either: fields that fit their widths join to a
/// 16-bit word, the same one by weights and by shifts, and splitting that
/// word gives the same fields back. With [`lemma_split_then_join`] this
/// makes splitting a one-to-one correspondence between words and in-range
/// fields.
pub proof fn lemma_join_then_split(f: (u8, u8, u8, u8, u8))
    requires
        fields_in_range(f),
    ensures
        0 <= join_fields(f) <= u16::MAX,
        pack_fields(f) == join_fields(f),
        raw_fields(pack_fields(f)) == f,
{
    let (a, b, c, d, e) = f;
    assert((a as u16) | ((b as u16) << 4) | ((c as u16) << 6) | ((d as u16) << 8) | ((e as u16)
        << 12) == a + 16 * b + 64 * c + 256 * d + 4096 * e) by (bit_vector)
        requires
            a < 16 && b < 4 && c < 4 && d < 16 && e < 16,
    ;
    let w = join_fields(f) as u16;
    assert(w % 16 == a && w / 16 % 4 == b && w / 64 % 4 == c && w / 256 % 16 == d && w / 4096
        == e) by (bit_vector)
        requires
            a < 16 && b < 4 && c < 4 && d < 16 && e < 16,
            w == a + 16 * b + 64 * c + 256 * d + 4096 * e,
    ;
}

/// Decoding gives one of the four families on every word, and `Nop` on the
/// reserved word `0xFFFF` alone.
pub proof fn lemma_family_is_total(w: u16)
    ensures
        decode(w).family is Nop || decode(w).family is Invalid || decode(w).family is Operation
            || decode(w).family is Load,
        decode(w).family is Nop <==> w == 0xFFFF,
{
}

/// A word other than the two reserved ones is `Invalid` exactly when its
/// decoded fields break one of the four rules of the grammar; of the others,
/// those that load are `Load` and the rest `Operation`.
pub proof fn lemma_invalid_iff_disqualified(w: u16)
    requires
        w != 0,
        w != 0xFFFF,
    ensures
        ({
            let raw = raw_fields(w);
            let operation = operation_of(raw.0);
            let load_type = load_type_of(raw.1);
            let load_size = load_size_of(raw.2);
            let source = register_of(raw.3);
            let destination = register_of(raw.4);
            &&& decode(w).operation == operation
            &&& decode(w).load_type == load_type
            &&& decode(w).load_size == load_size
            &&& decode(w).source == source
            &&& decode(w).destination == destination
            &&& decode(w).family is Invalid <==> {
                ||| operation != Operation::Nop && load_type != LoadType::NoLoad
                ||| operation == Operation::Nop && load_type == LoadType::NoLoad
                ||| source == destination
                ||| load_type != LoadType::Immediate && load_size != LoadSize::QWord
            }
            &&& decode(w).family is Load <==> decode(w).family !is Invalid && load_type
                != LoadType::NoLoad
            &&& decode(w).family is Operation <==> decode(w).family !is Invalid && load_type
                == LoadType::NoLoad
        }),
{
}

/// What each family says of the fields. An `Invalid` field occurs in the
/// reserved word `0x0000` alone. An `Operation` names an operation, loads
/// nothing and has the size `QWord`; a `Load` has `Nop` for its operation
/// and names a load type, and its size is `QWord` unless it loads an
/// immediate. In both, source and destination differ.
pub proof fn lemma_family_meaning(w: u16)
    ensures
        w != 0 ==> {
            &&& decode(w).operation !is Invalid
            &&& decode(w).load_type !is Invalid
            &&& decode(w).load_size !is Invalid
            &&& decode(w).source !is Invalid
            &&& decode(w).destination !is Invalid
        },
        decode(w).family is Operation ==> {
            &&& decode(w).operation !is Nop
            &&& decode(w).load_type is NoLoad
            &&& decode(w).load_size is QWord
            &&& decode(w).source != decode(w).destination
        },
        decode(w).family is Load ==> {
            &&& decode(w).operation is Nop
            &&& decode(w).load_type !is NoLoad
            &&& decode(w).load_type is Immediate || decode(w).load_size is QWord
            &&& decode(w).source != decode(w).destination
        },
{
    lemma_split_then_join(w);
}

} // verus!
