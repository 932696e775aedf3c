//! The sixteen-bit instruction word and its fields.
//!
//! A word is laid out, from the most significant bit down, as
//! one sign bit, four opcode bits, two addressing-mode bits and nine bits of
//! address magnitude. The same sixteen bits may also be read as plain data.
use crate::text::{decimal_text, push_decimal, push_text, same_text};
use vstd::prelude::*;

verus! {

/// Operation codes.
#[allow(non_camel_case_types)]
#[derive(Clone, Copy, Debug, PartialEq, Eq, Structural)]
pub enum Code {
    NULL,
    STOP,
    LOAD,
    STORE,
    JUMP,
    JNEG,
    JZERO,
    ADD,
    SUB,
    AND,
    OR,
    NOT,
    XOR,
    SHL,
    SHR,
}

/// Addressing modes: immediate, direct, indirect and indexed by the
/// accumulator.
#[allow(non_camel_case_types)]
#[derive(Clone, Copy, Debug, PartialEq, Eq, Structural)]
pub enum Adrt {
    DOT,
    AT,
    STAR,
    PLUS,
}

impl Adrt {
    /// The two-bit pattern of an addressing mode.
    pub open spec fn bits(self) -> int {
        match self {
            Adrt::DOT => 0,
            Adrt::AT => 1,
            Adrt::STAR => 2,
            Adrt::PLUS => 3,
        }
    }

    /// The addressing mode that a bit pattern stands for, if any.
    pub open spec fn of_bits(value: int) -> Option<Adrt> {
        if value == 0 {
            Some(Adrt::DOT)
        } else if value == 1 {
            Some(Adrt::AT)
        } else if value == 2 {
            Some(Adrt::STAR)
        } else if value == 3 {
            Some(Adrt::PLUS)
        } else {
            None
        }
    }

    /// The two-bit pattern of the addressing mode.
    pub fn into_bits(self) -> (bits: u16)
        ensures
            bits == self.bits(),
    {
        match self {
            Adrt::DOT => 0,
            Adrt::AT => 1,
            Adrt::STAR => 2,
            Adrt::PLUS => 3,
        }
    }

    /// Reads a bit pattern as an addressing mode. Every two-bit pattern names
    /// one; anything larger names none.
    pub fn from_bits(value: u16) -> (mode: Option<Adrt>)
        ensures
            mode == Adrt::of_bits(value as int),
            mode is Some <==> value < 4,
    {
        if value == 0 {
            Some(Adrt::DOT)
        } else if value == 1 {
            Some(Adrt::AT)
        } else if value == 2 {
            Some(Adrt::STAR)
        } else if value == 3 {
            Some(Adrt::PLUS)
        } else {
            None
        }
    }

    /// The name of an addressing mode, as it is shown.
    pub open spec fn name(self) -> Seq<char> {
        match self {
            Adrt::DOT => seq!['D', 'O', 'T'],
            Adrt::AT => seq!['A', 'T'],
            Adrt::STAR => seq!['S', 'T', 'A', 'R'],
            Adrt::PLUS => seq!['P', 'L', 'U', 'S'],
        }
    }

    /// The character that stands for an addressing mode in program text.
    pub open spec fn symbol(self) -> char {
        match self {
            Adrt::DOT => '.',
            Adrt::AT => '@',
            Adrt::STAR => '*',
            Adrt::PLUS => '+',
        }
    }

    /// The addressing mode that a character of program text stands for.
    pub open spec fn of_symbol(symbol: char) -> Option<Adrt> {
        if symbol == '.' {
            Some(Adrt::DOT)
        } else if symbol == '@' {
            Some(Adrt::AT)
        } else if symbol == '*' {
            Some(Adrt::STAR)
        } else if symbol == '+' {
            Some(Adrt::PLUS)
        } else {
            None
        }
    }

    /// The name of the addressing mode, as it is shown.
    pub fn mnemonic(self) -> (name: Vec<char>)
        ensures
            name@ == self.name(),
    {
        let name = match self {
            Adrt::DOT => vec!['D', 'O', 'T'],
            Adrt::AT => vec!['A', 'T'],
            Adrt::STAR => vec!['S', 'T', 'A', 'R'],
            Adrt::PLUS => vec!['P', 'L', 'U', 'S'],
        };
        assert(name@ =~= self.name());
        name
    }

    /// Reads a character of program text as an addressing mode.
    pub fn from_symbol(symbol: char) -> (mode: Option<Adrt>)
        ensures
            mode == Adrt::of_symbol(symbol),
            mode matches Some(m) ==> m.symbol() == symbol,
    {
        if symbol == '.' {
            Some(Adrt::DOT)
        } else if symbol == '@' {
            Some(Adrt::AT)
        } else if symbol == '*' {
            Some(Adrt::STAR)
        } else if symbol == '+' {
            Some(Adrt::PLUS)
        } else {
            None
        }
    }
}

impl Code {
    /// The name of an operation code, as it is written in program text and
    /// shown.
    pub open spec fn name(self) -> Seq<char> {
        match self {
            Code::NULL => seq!['N', 'U', 'L', 'L'],
            Code::STOP => seq!['S', 'T', 'O', 'P'],
            Code::LOAD => seq!['L', 'O', 'A', 'D'],
            Code::STORE => seq!['S', 'T', 'O', 'R', 'E'],
            Code::JUMP => seq!['J', 'U', 'M', 'P'],
            Code::JNEG => seq!['J', 'N', 'E', 'G'],
            Code::JZERO => seq!['J', 'Z', 'E', 'R', 'O'],
            Code::ADD => seq!['A', 'D', 'D'],
            Code::SUB => seq!['S', 'U', 'B'],
            Code::AND => seq!['A', 'N', 'D'],
            Code::OR => seq!['O', 'R'],
            Code::NOT => seq!['N', 'O', 'T'],
            Code::XOR => seq!['X', 'O', 'R'],
            Code::SHL => seq!['S', 'H', 'L'],
            Code::SHR => seq!['S', 'H', 'R'],
        }
    }

    /// The operation code of a given name. Names are matched exactly, in
    /// upper case.
    pub open spec fn named(name: Seq<char>) -> Option<Code> {
        if name == Code::NULL.name() {
            Some(Code::NULL)
        } else if name == Code::STOP.name() {
            Some(Code::STOP)
        } else if name == Code::LOAD.name() {
            Some(Code::LOAD)
        } else if name == Code::STORE.name() {
            Some(Code::STORE)
        } else if name == Code::JUMP.name() {
            Some(Code::JUMP)
        } else if name == Code::JNEG.name() {
            Some(Code::JNEG)
        } else if name == Code::JZERO.name() {
            Some(Code::JZERO)
        } else if name == Code::ADD.name() {
            Some(Code::ADD)
        } else if name == Code::SUB.name() {
            Some(Code::SUB)
        } else if name == Code::AND.name() {
            Some(Code::AND)
        } else if name == Code::OR.name() {
            Some(Code::OR)
        } else if name == Code::NOT.name() {
            Some(Code::NOT)
        } else if name == Code::XOR.name() {
            Some(Code::XOR)
        } else if name == Code::SHL.name() {
            Some(Code::SHL)
        } else if name == Code::SHR.name() {
            Some(Code::SHR)
        } else {
            None
        }
    }

    /// The name of the operation code.
    pub fn mnemonic(self) -> (name: Vec<char>)
        ensures
            name@ == self.name(),
    {
        let name = match self {
            Code::NULL => vec!['N', 'U', 'L', 'L'],
            Code::STOP => vec!['S', 'T', 'O', 'P'],
            Code::LOAD => vec!['L', 'O', 'A', 'D'],
            Code::STORE => vec!['S', 'T', 'O', 'R', 'E'],
            Code::JUMP => vec!['J', 'U', 'M', 'P'],
            Code::JNEG => vec!['J', 'N', 'E', 'G'],
            Code::JZERO => vec!['J', 'Z', 'E', 'R', 'O'],
            Code::ADD => vec!['A', 'D', 'D'],
            Code::SUB => vec!['S', 'U', 'B'],
            Code::AND => vec!['A', 'N', 'D'],
            Code::OR => vec!['O', 'R'],
            Code::NOT => vec!['N', 'O', 'T'],
            Code::XOR => vec!['X', 'O', 'R'],
            Code::SHL => vec!['S', 'H', 'L'],
            Code::SHR => vec!['S', 'H', 'R'],
        };
        assert(name@ =~= self.name());
        name
    }

    /// Finds the operation code of a given name.
    pub fn from_name(name: &Vec<char>) -> (code: Option<Code>)
        ensures
            code == Code::named(name@),
            code matches Some(c) ==> c.name() == name@,
    {
        if same_text(name, &Code::NULL.mnemonic()) {
            Some(Code::NULL)
        } else if same_text(name, &Code::STOP.mnemonic()) {
            Some(Code::STOP)
        } else if same_text(name, &Code::LOAD.mnemonic()) {
            Some(Code::LOAD)
        } else if same_text(name, &Code::STORE.mnemonic()) {
            Some(Code::STORE)
        } else if same_text(name, &Code::JUMP.mnemonic()) {
            Some(Code::JUMP)
        } else if same_text(name, &Code::JNEG.mnemonic()) {
            Some(Code::JNEG)
        } else if same_text(name, &Code::JZERO.mnemonic()) {
            Some(Code::JZERO)
        } else if same_text(name, &Code::ADD.mnemonic()) {
            Some(Code::ADD)
        } else if same_text(name, &Code::SUB.mnemonic()) {
            Some(Code::SUB)
        } else if same_text(name, &Code::AND.mnemonic()) {
            Some(Code::AND)
        } else if same_text(name, &Code::OR.mnemonic()) {
            Some(Code::OR)
        } else if same_text(name, &Code::NOT.mnemonic()) {
            Some(Code::NOT)
        } else if same_text(name, &Code::XOR.mnemonic()) {
            Some(Code::XOR)
        } else if same_text(name, &Code::SHL.mnemonic()) {
            Some(Code::SHL)
        } else if same_text(name, &Code::SHR.mnemonic()) {
            Some(Code::SHR)
        } else {
            None
        }
    }

    /// The four-bit pattern of an operation code.
    pub open spec fn bits(self) -> int {
        match self {
            Code::NULL => 0,
            Code::STOP => 1,
            Code::LOAD => 2,
            Code::STORE => 3,
            Code::JUMP => 4,
            Code::JNEG => 5,
            Code::JZERO => 6,
            Code::ADD => 8,
            Code::SUB => 9,
            Code::SHL => 10,
            Code::SHR => 11,
            Code::AND => 12,
            Code::OR => 13,
            Code::NOT => 14,
            Code::XOR => 15,
        }
    }

    /// The operation code that a bit pattern stands for, if any. Of the
    /// sixteen four-bit patterns only `0b0111` is unassigned.
    pub open spec fn of_bits(value: int) -> Option<Code> {
        if value == 0 {
            Some(Code::NULL)
        } else if value == 1 {
            Some(Code::STOP)
        } else if value == 2 {
            Some(Code::LOAD)
        } else if value == 3 {
            Some(Code::STORE)
        } else if value == 4 {
            Some(Code::JUMP)
        } else if value == 5 {
            Some(Code::JNEG)
        } else if value == 6 {
            Some(Code::JZERO)
        } else if value == 8 {
            Some(Code::ADD)
        } else if value == 9 {
            Some(Code::SUB)
        } else if value == 10 {
            Some(Code::SHL)
        } else if value == 11 {
            Some(Code::SHR)
        } else if value == 12 {
            Some(Code::AND)
        } else if value == 13 {
            Some(Code::OR)
        } else if value == 14 {
            Some(Code::NOT)
        } else if value == 15 {
            Some(Code::XOR)
        } else {
            None
        }
    }

    /// The four-bit pattern of the operation code.
    pub fn into_bits(self) -> (bits: u16)
        ensures
            bits == self.bits(),
    {
        match self {
            Code::NULL => 0b0000,
            Code::STOP => 0b0001,
            Code::LOAD => 0b0010,
            Code::STORE => 0b0011,
            Code::JUMP => 0b0100,
            Code::JNEG => 0b0101,
            Code::JZERO => 0b0110,
            Code::ADD => 0b1000,
            Code::SUB => 0b1001,
            Code::SHL => 0b1010,
            Code::SHR => 0b1011,
            Code::AND => 0b1100,
            Code::OR => 0b1101,
            Code::NOT => 0b1110,
            Code::XOR => 0b1111,
        }
    }

    /// Reads a bit pattern as an operation code.
    pub fn from_bits(value: u16) -> (code: Option<Code>)
        ensures
            code == Code::of_bits(value as int),
            code is Some <==> value < 16 && value != 7,
    {
        match value {
            0b0000 => Some(Code::NULL),
            0b0001 => Some(Code::STOP),
            0b0010 => Some(Code::LOAD),
            0b0011 => Some(Code::STORE),
            0b0100 => Some(Code::JUMP),
            0b0101 => Some(Code::JNEG),
            0b0110 => Some(Code::JZERO),
            0b1000 => Some(Code::ADD),
            0b1001 => Some(Code::SUB),
            0b1010 => Some(Code::SHL),
            0b1011 => Some(Code::SHR),
            0b1100 => Some(Code::AND),
            0b1101 => Some(Code::OR),
            0b1110 => Some(Code::NOT),
            0b1111 => Some(Code::XOR),
            _ => None,
        }
    }
}

/// The signed address that a sign bit and a magnitude stand for:
/// sign-magnitude, so the sign bit negates the magnitude and there are two
/// zeros.
pub open spec fn signed_address(sign: int, magnitude: int) -> int {
    if sign == 1 {
        -magnitude
    } else {
        magnitude
    }
}

/// An instruction as it is shown: its sign as `+` or `-`, the names of its
/// operation and its mode, and its address magnitude in decimal.
pub open spec fn instruction_text(fields: InnerInstruction) -> Seq<char> {
    seq![
        if fields.sign == 1 {
            '-'
        } else {
            '+'
        },
        ' ',
    ] + fields.code.name() + seq![' '] + fields.adrt.name() + seq![' '] + decimal_text(
        fields.adr as nat,
    )
}

/// One memory word. Nothing in the word says whether it holds an instruction
/// or data: whoever reads it chooses, by reading `raw` or by decoding.
#[derive(Clone, Copy, Debug, PartialEq, Eq, Structural)]
pub struct Instruction {
    pub raw: u16,
}

/// The four fields of an instruction word.
#[derive(Clone, Copy, Debug, PartialEq, Eq, Structural)]
pub struct InnerInstruction {
    pub sign: u16,
    pub code: Code,
    pub adrt: Adrt,
    pub adr: u16,
}

impl Instruction {
    /// The sign bit of the address field: bit 15.
    pub open spec fn sign_bit(self) -> int {
        (self.raw / 0x8000) as int
    }

    /// The opcode bits: bits 11 to 14.
    pub open spec fn code_bits(self) -> int {
        ((self.raw / 0x800) % 16) as int
    }

    /// The addressing-mode bits: bits 9 and 10.
    pub open spec fn adrt_bits(self) -> int {
        ((self.raw / 0x200) % 4) as int
    }

    /// The address magnitude: bits 0 to 8.
    pub open spec fn magnitude(self) -> int {
        (self.raw % 0x200) as int
    }

    /// The addressing mode of the word. Every word has one.
    pub open spec fn mode(self) -> Adrt {
        Adrt::of_bits(self.adrt_bits()).unwrap()
    }

    /// The operation code of the word, where its opcode bits name one.
    pub open spec fn opcode(self) -> Option<Code> {
        Code::of_bits(self.code_bits())
    }

    /// The signed address of the word.
    pub open spec fn signed_address(self) -> int {
        signed_address(self.sign_bit(), self.magnitude())
    }

    /// The word read as an instruction: its four fields, or nothing where
    /// the opcode bits name no operation.
    pub open spec fn fields(self) -> Option<InnerInstruction> {
        match self.opcode() {
            Some(code) => Some(
                InnerInstruction {
                    sign: self.sign_bit() as u16,
                    code,
                    adrt: self.mode(),
                    adr: self.magnitude() as u16,
                },
            ),
            None => None,
        }
    }

    /// The sign bit of the address field.
    pub fn sign(&self) -> (sign: u16)
        ensures
            sign == self.sign_bit(),
            sign <= 1,
    {
        let raw = self.raw;
        assert(raw >> 15 == raw / 0x8000 && raw >> 15 <= 1) by (bit_vector);
        raw >> 15
    }

    /// The address magnitude.
    pub fn adr(&self) -> (adr: u16)
        ensures
            adr == self.magnitude(),
            adr < 512,
    {
        let raw = self.raw;
        assert(raw & 0x1ff == raw % 0x200) by (bit_vector);
        raw & 0x1ff
    }

    /// The addressing mode.
    pub fn adrt(&self) -> (adrt: Adrt)
        ensures
            adrt == self.mode(),
            adrt.bits() == self.adrt_bits(),
    {
        let raw = self.raw;
        assert((raw >> 9) & 0x3 == (raw / 0x200) % 4) by (bit_vector);
        match Adrt::from_bits((raw >> 9) & 0x3) {
            Some(adrt) => adrt,
            None => Adrt::DOT,
        }
    }

    /// The operation code, or `None` for the one opcode pattern that names
    /// no operation.
    pub fn code(&self) -> (code: Option<Code>)
        ensures
            code == self.opcode(),
            code is None <==> self.code_bits() == 7,
            code matches Some(c) ==> c.bits() == self.code_bits(),
    {
        let raw = self.raw;
        assert((raw >> 11) & 0xf == (raw / 0x800) % 16) by (bit_vector);
        Code::from_bits((raw >> 11) & 0xf)
    }

    /// The signed address: the magnitude, negated where the sign bit is set.
    pub fn adr_val(&self) -> (value: i16)
        ensures
            value == self.signed_address(),
            -512 < value < 512,
    {
        if self.sign() == 1 {
            -(self.adr() as i16)
        } else {
            self.adr() as i16
        }
    }

    /// Reads the word as an instruction.
    pub fn decode(&self) -> (fields: Option<InnerInstruction>)
        ensures
            fields == self.fields(),
            fields is None <==> self.code_bits() == 7,
            fields matches Some(f) ==> f.wf() && f.encoded() == *self,
    {
        match self.code() {
            Some(code) => {
                proof {
                    encode_inverts_decode(*self);
                }
                Some(
                    InnerInstruction {
                        sign: self.sign(),
                        code,
                        adrt: self.adrt(),
                        adr: self.adr(),
                    },
                )
            },
            None => None,
        }
    }
}

impl InnerInstruction {
    /// The fields fit their widths: one bit of sign, nine bits of magnitude.
    pub open spec fn wf(self) -> bool {
        self.sign <= 1 && self.adr < 512
    }

    /// The word that holds these fields.
    pub open spec fn encoded(self) -> Instruction {
        Instruction {
            raw: (self.sign * 0x8000 + self.code.bits() * 0x800 + self.adrt.bits() * 0x200
                + self.adr) as u16,
        }
    }

    /// The signed address of the fields.
    pub open spec fn signed_address(self) -> int {
        signed_address(self.sign as int, self.adr as int)
    }

    /// Puts four fields together, or gives `None` where the sign is not a
    /// single bit or the magnitude does not fit in nine.
    pub fn new(sign: u16, code: Code, adrt: Adrt, adr: u16) -> (fields: Option<InnerInstruction>)
        ensures
            fields == if sign <= 1 && adr < 512 {
                Some(InnerInstruction { sign, code, adrt, adr })
            } else {
                None
            },
    {
        if sign <= 1 && adr < 512 {
            Some(InnerInstruction { sign, code, adrt, adr })
        } else {
            None
        }
    }

    /// Packs the fields into a word.
    pub fn encode(&self) -> (word: Instruction)
        requires
            self.wf(),
        ensures
            word == self.encoded(),
            word.fields() == Some(*self),
    {
        let sign = self.sign;
        let code = self.code.into_bits();
        let adrt = self.adrt.into_bits();
        let adr = self.adr;
        assert((sign << 15) | (code << 11) | (adrt << 9) | adr == sign * 0x8000 + code * 0x800
            + adrt * 0x200 + adr) by (bit_vector)
            requires
                sign <= 1,
                code < 16,
                adrt < 4,
                adr < 512,
        ;
        proof {
            decode_inverts_encode(*self);
        }
        Instruction { raw: (sign << 15) | (code << 11) | (adrt << 9) | adr }
    }

    /// The signed address: the magnitude, negated where the sign is set.
    pub fn adr_val(&self) -> (value: i16)
        requires
            self.wf(),
        ensures
            value == self.signed_address(),
    {
        if self.sign == 1 {
            -(self.adr as i16)
        } else {
            self.adr as i16
        }
    }

    /// The instruction as it is shown.
    pub fn text(&self) -> (text: Vec<char>)
        ensures
            text@ == instruction_text(*self),
    {
        let mut text: Vec<char> = Vec::new();
        text.push(
            if self.sign == 1 {
                '-'
            } else {
                '+'
            },
        );
        text.push(' ');
        push_text(&mut text, &self.code.mnemonic());
        text.push(' ');
        push_text(&mut text, &self.adrt.mnemonic());
        text.push(' ');
        push_decimal(&mut text, self.adr as usize);
        assert(text@ =~= instruction_text(*self));
        text
    }
}

/// Decoding undoes encoding: a word packed from fields that fit their widths
/// reads back as exactly those fields.
pub proof fn decode_inverts_encode(fields: InnerInstruction)
    requires
        fields.wf(),
    ensures
        fields.encoded().fields() == Some(fields),
{
    let word = fields.encoded();
    assert(word.code_bits() == fields.code.bits());
    assert(word.adrt_bits() == fields.adrt.bits());
}

/// Encoding undoes decoding: a word whose opcode bits name an operation is
/// the word packed from its own fields.
pub proof fn encode_inverts_decode(word: Instruction)
    requires
        word.fields() is Some,
    ensures
        word.fields().unwrap().wf(),
        word.fields().unwrap().encoded() == word,
{
    let fields = word.fields().unwrap();
    assert(fields.code.bits() == word.code_bits());
    assert(fields.adrt.bits() == word.adrt_bits());
}

/// The signed address is the magnitude where the sign is 0 and its negation
/// where the sign is 1, whether it is read from the fields or from the word
/// that holds them.
pub proof fn signed_address_by_sign(sign: u16, code: Code, adrt: Adrt, magnitude: u16)
    requires
        sign <= 1,
        magnitude < 512,
    ensures
        sign == 0 ==> (InnerInstruction { sign, code, adrt, adr: magnitude }).signed_address()
            == magnitude,
        sign == 1 ==> (InnerInstruction { sign, code, adrt, adr: magnitude }).signed_address()
            == -magnitude,
        (InnerInstruction { sign, code, adrt, adr: magnitude }).encoded().signed_address() == (
        InnerInstruction { sign, code, adrt, adr: magnitude }).signed_address(),
{
    decode_inverts_encode(InnerInstruction { sign, code, adrt, adr: magnitude });
}

} // verus!
