//! The pattern table and the decoder: an encoding is recognised by the first
//! pattern of its opcode bucket with `code & mask == match_code`.
use vstd::prelude::*;

verus! {

/// The instructions this hart executes.
#[derive(Clone, Copy, Debug, PartialEq, Eq, Structural)]
pub enum Opcode {
    Lui,
    Auipc,
    Jal,
    Jalr,
    Beq,
    Bne,
    Blt,
    Bge,
    Bltu,
    Bgeu,
    Lb,
    Lh,
    Lw,
    Lbu,
    Lhu,
    Sb,
    Sh,
    Sw,
    Addi,
    Slti,
    Sltiu,
    Xori,
    Ori,
    Andi,
    Slli,
    Srli,
    Srai,
    Add,
    Sub,
    Sll,
    Slt,
    Sltu,
    Xor,
    Srl,
    Sra,
    Or,
    And,
    Fence,
    FenceI,
    Ecall,
    Ebreak,
    Csrrw,
    Csrrs,
    Csrrc,
    Csrrwi,
    Csrrsi,
    Csrrci,
    Lwu,
    Ld,
    Sd,
    Addiw,
    Slliw,
    Sraiw,
    Srliw,
    Addw,
    Subw,
    Sllw,
    Sraw,
    Sret,
    Mret,
    Wfi,
    SfenceVma,
    Mul,
    Mulh,
    Mulhsu,
    Mulhu,
    Div,
    Divu,
    Rem,
    Remu,
    Remuw,
    Divuw,
    LrW,
    ScW,
    AmoswapW,
    AmoaddW,
    AmoxorW,
    AmoandW,
    AmoorW,
    AmominW,
    AmomaxW,
    AmominuW,
    AmomaxuW,
    Srlw,
    Mulw,
    Divw,
    Remw,
}

/// One entry of the pattern table.
#[derive(Clone, Copy, Debug, PartialEq, Eq, Structural)]
pub struct Pattern {
    /// The bits an encoding must hold under `mask`.
    pub match_code: u32,
    /// The bits of an encoding that the pattern fixes.
    pub mask: u32,
    /// The instruction recognised.
    pub op: Opcode,
}

/// A decoded instruction: what it is and its 32-bit encoding.
#[derive(Clone, Copy, Debug, PartialEq, Eq, Structural)]
pub struct Insn {
    pub op: Opcode,
    pub code: u32,
}

/// The pattern table, in registration order.
pub open spec fn pattern_table() -> Seq<Pattern> {
    seq![
        Pattern { match_code: 0x37, mask: 0x7f, op: Opcode::Lui },
        Pattern { match_code: 0x17, mask: 0x7f, op: Opcode::Auipc },
        Pattern { match_code: 0x6f, mask: 0x7f, op: Opcode::Jal },
        Pattern { match_code: 0x67, mask: 0x707f, op: Opcode::Jalr },
        Pattern { match_code: 0x63, mask: 0x707f, op: Opcode::Beq },
        Pattern { match_code: 0x1063, mask: 0x707f, op: Opcode::Bne },
        Pattern { match_code: 0x4063, mask: 0x707f, op: Opcode::Blt },
        Pattern { match_code: 0x5063, mask: 0x707f, op: Opcode::Bge },
        Pattern { match_code: 0x6063, mask: 0x707f, op: Opcode::Bltu },
        Pattern { match_code: 0x7063, mask: 0x707f, op: Opcode::Bgeu },
        Pattern { match_code: 0x3, mask: 0x707f, op: Opcode::Lb },
        Pattern { match_code: 0x1003, mask: 0x707f, op: Opcode::Lh },
        Pattern { match_code: 0x2003, mask: 0x707f, op: Opcode::Lw },
        Pattern { match_code: 0x4003, mask: 0x707f, op: Opcode::Lbu },
        Pattern { match_code: 0x5003, mask: 0x707f, op: Opcode::Lhu },
        Pattern { match_code: 0x23, mask: 0x707f, op: Opcode::Sb },
        Pattern { match_code: 0x1023, mask: 0x707f, op: Opcode::Sh },
        Pattern { match_code: 0x2023, mask: 0x707f, op: Opcode::Sw },
        Pattern { match_code: 0x13, mask: 0x707f, op: Opcode::Addi },
        Pattern { match_code: 0x2013, mask: 0x707f, op: Opcode::Slti },
        Pattern { match_code: 0x3013, mask: 0x707f, op: Opcode::Sltiu },
        Pattern { match_code: 0x4013, mask: 0x707f, op: Opcode::Xori },
        Pattern { match_code: 0x6013, mask: 0x707f, op: Opcode::Ori },
        Pattern { match_code: 0x7013, mask: 0x707f, op: Opcode::Andi },
        Pattern { match_code: 0x1013, mask: 0xfc00707f, op: Opcode::Slli },
        Pattern { match_code: 0x5013, mask: 0xfc00707f, op: Opcode::Srli },
        Pattern { match_code: 0x40005013, mask: 0xfc00707f, op: Opcode::Srai },
        Pattern { match_code: 0x33, mask: 0xfe00707f, op: Opcode::Add },
        Pattern { match_code: 0x40000033, mask: 0xfe00707f, op: Opcode::Sub },
        Pattern { match_code: 0x1033, mask: 0xfe00707f, op: Opcode::Sll },
        Pattern { match_code: 0x2033, mask: 0xfe00707f, op: Opcode::Slt },
        Pattern { match_code: 0x3033, mask: 0xfe00707f, op: Opcode::Sltu },
        Pattern { match_code: 0x4033, mask: 0xfe00707f, op: Opcode::Xor },
        Pattern { match_code: 0x5033, mask: 0xfe00707f, op: Opcode::Srl },
        Pattern { match_code: 0x40005033, mask: 0xfe00707f, op: Opcode::Sra },
        Pattern { match_code: 0x6033, mask: 0xfe00707f, op: Opcode::Or },
        Pattern { match_code: 0x7033, mask: 0xfe00707f, op: Opcode::And },
        Pattern { match_code: 0xf, mask: 0x707f, op: Opcode::Fence },
        Pattern { match_code: 0x100f, mask: 0x707f, op: Opcode::FenceI },
        Pattern { match_code: 0x73, mask: 0xffffffff, op: Opcode::Ecall },
        Pattern { match_code: 0x100073, mask: 0xffffffff, op: Opcode::Ebreak },
        Pattern { match_code: 0x1073, mask: 0x707f, op: Opcode::Csrrw },
        Pattern { match_code: 0x2073, mask: 0x707f, op: Opcode::Csrrs },
        Pattern { match_code: 0x3073, mask: 0x707f, op: Opcode::Csrrc },
        Pattern { match_code: 0x5073, mask: 0x707f, op: Opcode::Csrrwi },
        Pattern { match_code: 0x6073, mask: 0x707f, op: Opcode::Csrrsi },
        Pattern { match_code: 0x7073, mask: 0x707f, op: Opcode::Csrrci },
        Pattern { match_code: 0x6003, mask: 0x707f, op: Opcode::Lwu },
        Pattern { match_code: 0x3003, mask: 0x707f, op: Opcode::Ld },
        Pattern { match_code: 0x3023, mask: 0x707f, op: Opcode::Sd },
        Pattern { match_code: 0x1b, mask: 0x707f, op: Opcode::Addiw },
        Pattern { match_code: 0x101b, mask: 0xfe00707f, op: Opcode::Slliw },
        Pattern { match_code: 0x4000501b, mask: 0xfe00707f, op: Opcode::Sraiw },
        Pattern { match_code: 0x501b, mask: 0xfe00707f, op: Opcode::Srliw },
        Pattern { match_code: 0x3b, mask: 0xfe00707f, op: Opcode::Addw },
        Pattern { match_code: 0x4000003b, mask: 0xfe00707f, op: Opcode::Subw },
        Pattern { match_code: 0x103b, mask: 0xfe00707f, op: Opcode::Sllw },
        Pattern { match_code: 0x4000503b, mask: 0xfe00707f, op: Opcode::Sraw },
        Pattern { match_code: 0x10200073, mask: 0xffffffff, op: Opcode::Sret },
        Pattern { match_code: 0x30200073, mask: 0xffffffff, op: Opcode::Mret },
        Pattern { match_code: 0x10500073, mask: 0xffffffff, op: Opcode::Wfi },
        Pattern { match_code: 0x12000073, mask: 0xfe007fff, op: Opcode::SfenceVma },
        Pattern { match_code: 0x2000033, mask: 0xfe00707f, op: Opcode::Mul },
        Pattern { match_code: 0x2001033, mask: 0xfe00707f, op: Opcode::Mulh },
        Pattern { match_code: 0x2002033, mask: 0xfe00707f, op: Opcode::Mulhsu },
        Pattern { match_code: 0x2003033, mask: 0xfe00707f, op: Opcode::Mulhu },
        Pattern { match_code: 0x2004033, mask: 0xfe00707f, op: Opcode::Div },
        Pattern { match_code: 0x2005033, mask: 0xfe00707f, op: Opcode::Divu },
        Pattern { match_code: 0x2006033, mask: 0xfe00707f, op: Opcode::Rem },
        Pattern { match_code: 0x2007033, mask: 0xfe00707f, op: Opcode::Remu },
        Pattern { match_code: 0x200703b, mask: 0xfe00707f, op: Opcode::Remuw },
        Pattern { match_code: 0x200503b, mask: 0xfe00707f, op: Opcode::Divuw },
        Pattern { match_code: 0x1000202f, mask: 0xf9f0707f, op: Opcode::LrW },
        Pattern { match_code: 0x1800202f, mask: 0xf800707f, op: Opcode::ScW },
        Pattern { match_code: 0x800202f, mask: 0xf800707f, op: Opcode::AmoswapW },
        Pattern { match_code: 0x202f, mask: 0xf800707f, op: Opcode::AmoaddW },
        Pattern { match_code: 0x2000202f, mask: 0xf800707f, op: Opcode::AmoxorW },
        Pattern { match_code: 0x6000202f, mask: 0xf800707f, op: Opcode::AmoandW },
        Pattern { match_code: 0x4000202f, mask: 0xf800707f, op: Opcode::AmoorW },
        Pattern { match_code: 0x8000202f, mask: 0xf800707f, op: Opcode::AmominW },
        Pattern { match_code: 0xa000202f, mask: 0xf800707f, op: Opcode::AmomaxW },
        Pattern { match_code: 0xc000202f, mask: 0xf800707f, op: Opcode::AmominuW },
        Pattern { match_code: 0xe000202f, mask: 0xf800707f, op: Opcode::AmomaxuW },
        Pattern { match_code: 0x503b, mask: 0xfe00707f, op: Opcode::Srlw },
        Pattern { match_code: 0x200003b, mask: 0xfe00707f, op: Opcode::Mulw },
        Pattern { match_code: 0x200403b, mask: 0xfe00707f, op: Opcode::Divw },
        Pattern { match_code: 0x200603b, mask: 0xfe00707f, op: Opcode::Remw },
    ]
}

/// The pattern table, in registration order.
pub fn patterns() -> (r: Vec<Pattern>)
    ensures
        r@ == pattern_table(),
{
    let r = vec![
        Pattern { match_code: 0x37, mask: 0x7f, op: Opcode::Lui },
        Pattern { match_code: 0x17, mask: 0x7f, op: Opcode::Auipc },
        Pattern { match_code: 0x6f, mask: 0x7f, op: Opcode::Jal },
        Pattern { match_code: 0x67, mask: 0x707f, op: Opcode::Jalr },
        Pattern { match_code: 0x63, mask: 0x707f, op: Opcode::Beq },
        Pattern { match_code: 0x1063, mask: 0x707f, op: Opcode::Bne },
        Pattern { match_code: 0x4063, mask: 0x707f, op: Opcode::Blt },
        Pattern { match_code: 0x5063, mask: 0x707f, op: Opcode::Bge },
        Pattern { match_code: 0x6063, mask: 0x707f, op: Opcode::Bltu },
        Pattern { match_code: 0x7063, mask: 0x707f, op: Opcode::Bgeu },
        Pattern { match_code: 0x3, mask: 0x707f, op: Opcode::Lb },
        Pattern { match_code: 0x1003, mask: 0x707f, op: Opcode::Lh },
        Pattern { match_code: 0x2003, mask: 0x707f, op: Opcode::Lw },
        Pattern { match_code: 0x4003, mask: 0x707f, op: Opcode::Lbu },
        Pattern { match_code: 0x5003, mask: 0x707f, op: Opcode::Lhu },
        Pattern { match_code: 0x23, mask: 0x707f, op: Opcode::Sb },
        Pattern { match_code: 0x1023, mask: 0x707f, op: Opcode::Sh },
        Pattern { match_code: 0x2023, mask: 0x707f, op: Opcode::Sw },
        Pattern { match_code: 0x13, mask: 0x707f, op: Opcode::Addi },
        Pattern { match_code: 0x2013, mask: 0x707f, op: Opcode::Slti },
        Pattern { match_code: 0x3013, mask: 0x707f, op: Opcode::Sltiu },
        Pattern { match_code: 0x4013, mask: 0x707f, op: Opcode::Xori },
        Pattern { match_code: 0x6013, mask: 0x707f, op: Opcode::Ori },
        Pattern { match_code: 0x7013, mask: 0x707f, op: Opcode::Andi },
        Pattern { match_code: 0x1013, mask: 0xfc00707f, op: Opcode::Slli },
        Pattern { match_code: 0x5013, mask: 0xfc00707f, op: Opcode::Srli },
        Pattern { match_code: 0x40005013, mask: 0xfc00707f, op: Opcode::Srai },
        Pattern { match_code: 0x33, mask: 0xfe00707f, op: Opcode::Add },
        Pattern { match_code: 0x40000033, mask: 0xfe00707f, op: Opcode::Sub },
        Pattern { match_code: 0x1033, mask: 0xfe00707f, op: Opcode::Sll },
        Pattern { match_code: 0x2033, mask: 0xfe00707f, op: Opcode::Slt },
        Pattern { match_code: 0x3033, mask: 0xfe00707f, op: Opcode::Sltu },
        Pattern { match_code: 0x4033, mask: 0xfe00707f, op: Opcode::Xor },
        Pattern { match_code: 0x5033, mask: 0xfe00707f, op: Opcode::Srl },
        Pattern { match_code: 0x40005033, mask: 0xfe00707f, op: Opcode::Sra },
        Pattern { match_code: 0x6033, mask: 0xfe00707f, op: Opcode::Or },
        Pattern { match_code: 0x7033, mask: 0xfe00707f, op: Opcode::And },
        Pattern { match_code: 0xf, mask: 0x707f, op: Opcode::Fence },
        Pattern { match_code: 0x100f, mask: 0x707f, op: Opcode::FenceI },
        Pattern { match_code: 0x73, mask: 0xffffffff, op: Opcode::Ecall },
        Pattern { match_code: 0x100073, mask: 0xffffffff, op: Opcode::Ebreak },
        Pattern { match_code: 0x1073, mask: 0x707f, op: Opcode::Csrrw },
        Pattern { match_code: 0x2073, mask: 0x707f, op: Opcode::Csrrs },
        Pattern { match_code: 0x3073, mask: 0x707f, op: Opcode::Csrrc },
        Pattern { match_code: 0x5073, mask: 0x707f, op: Opcode::Csrrwi },
        Pattern { match_code: 0x6073, mask: 0x707f, op: Opcode::Csrrsi },
        Pattern { match_code: 0x7073, mask: 0x707f, op: Opcode::Csrrci },
        Pattern { match_code: 0x6003, mask: 0x707f, op: Opcode::Lwu },
        Pattern { match_code: 0x3003, mask: 0x707f, op: Opcode::Ld },
        Pattern { match_code: 0x3023, mask: 0x707f, op: Opcode::Sd },
        Pattern { match_code: 0x1b, mask: 0x707f, op: Opcode::Addiw },
        Pattern { match_code: 0x101b, mask: 0xfe00707f, op: Opcode::Slliw },
        Pattern { match_code: 0x4000501b, mask: 0xfe00707f, op: Opcode::Sraiw },
        Pattern { match_code: 0x501b, mask: 0xfe00707f, op: Opcode::Srliw },
        Pattern { match_code: 0x3b, mask: 0xfe00707f, op: Opcode::Addw },
        Pattern { match_code: 0x4000003b, mask: 0xfe00707f, op: Opcode::Subw },
        Pattern { match_code: 0x103b, mask: 0xfe00707f, op: Opcode::Sllw },
        Pattern { match_code: 0x4000503b, mask: 0xfe00707f, op: Opcode::Sraw },
        Pattern { match_code: 0x10200073, mask: 0xffffffff, op: Opcode::Sret },
        Pattern { match_code: 0x30200073, mask: 0xffffffff, op: Opcode::Mret },
        Pattern { match_code: 0x10500073, mask: 0xffffffff, op: Opcode::Wfi },
        Pattern { match_code: 0x12000073, mask: 0xfe007fff, op: Opcode::SfenceVma },
        Pattern { match_code: 0x2000033, mask: 0xfe00707f, op: Opcode::Mul },
        Pattern { match_code: 0x2001033, mask: 0xfe00707f, op: Opcode::Mulh },
        Pattern { match_code: 0x2002033, mask: 0xfe00707f, op: Opcode::Mulhsu },
        Pattern { match_code: 0x2003033, mask: 0xfe00707f, op: Opcode::Mulhu },
        Pattern { match_code: 0x2004033, mask: 0xfe00707f, op: Opcode::Div },
        Pattern { match_code: 0x2005033, mask: 0xfe00707f, op: Opcode::Divu },
        Pattern { match_code: 0x2006033, mask: 0xfe00707f, op: Opcode::Rem },
        Pattern { match_code: 0x2007033, mask: 0xfe00707f, op: Opcode::Remu },
        Pattern { match_code: 0x200703b, mask: 0xfe00707f, op: Opcode::Remuw },
        Pattern { match_code: 0x200503b, mask: 0xfe00707f, op: Opcode::Divuw },
        Pattern { match_code: 0x1000202f, mask: 0xf9f0707f, op: Opcode::LrW },
        Pattern { match_code: 0x1800202f, mask: 0xf800707f, op: Opcode::ScW },
        Pattern { match_code: 0x800202f, mask: 0xf800707f, op: Opcode::AmoswapW },
        Pattern { match_code: 0x202f, mask: 0xf800707f, op: Opcode::AmoaddW },
        Pattern { match_code: 0x2000202f, mask: 0xf800707f, op: Opcode::AmoxorW },
        Pattern { match_code: 0x6000202f, mask: 0xf800707f, op: Opcode::AmoandW },
        Pattern { match_code: 0x4000202f, mask: 0xf800707f, op: Opcode::AmoorW },
        Pattern { match_code: 0x8000202f, mask: 0xf800707f, op: Opcode::AmominW },
        Pattern { match_code: 0xa000202f, mask: 0xf800707f, op: Opcode::AmomaxW },
        Pattern { match_code: 0xc000202f, mask: 0xf800707f, op: Opcode::AmominuW },
        Pattern { match_code: 0xe000202f, mask: 0xf800707f, op: Opcode::AmomaxuW },
        Pattern { match_code: 0x503b, mask: 0xfe00707f, op: Opcode::Srlw },
        Pattern { match_code: 0x200003b, mask: 0xfe00707f, op: Opcode::Mulw },
        Pattern { match_code: 0x200403b, mask: 0xfe00707f, op: Opcode::Divw },
        Pattern { match_code: 0x200603b, mask: 0xfe00707f, op: Opcode::Remw },
    ];
    assert(r@ =~= pattern_table());
    r
}

/// The low seven bits of an encoding: the major opcode, which keys the buckets.
pub open spec fn opcode_bits(code: u32) -> u32 {
    code & 0x7f
}

/// The bucket of major opcode `op`: the table entries whose match code has that
/// opcode, in table order.
pub open spec fn bucket(op: u32) -> Seq<Pattern> {
    pattern_table().filter(|p: Pattern| opcode_bits(p.match_code) == op)
}

/// The instruction of the first pattern of `s` that `code` matches.
pub open spec fn first_match(s: Seq<Pattern>, code: u32) -> Option<Opcode>
    decreases s.len(),
{
    if s.len() == 0 {
        None
    } else if code & s[0].mask == s[0].match_code {
        Some(s[0].op)
    } else {
        first_match(s.drop_first(), code)
    }
}

/// What `code` decodes to: the first match in its opcode bucket, or nothing.
pub open spec fn spec_decode(code: u32) -> Option<Insn> {
    match first_match(bucket(opcode_bits(code)), code) {
        Some(op) => Some(Insn { op, code }),
        None => None,
    }
}

/// The major opcode is below 128.
proof fn lemma_low7(x: u32)
    ensures
        x & 0x7f < 128,
{
    assert(x & 0x7f < 128) by (bit_vector);
}

/// The pattern table grouped into buckets by major opcode.
pub struct InsnDecoder {
    buckets: Vec<Vec<Pattern>>,
}

impl InsnDecoder {
    /// There are 128 buckets and each holds its opcode's patterns in table order.
    pub closed spec fn wf(&self) -> bool {
        &&& self.buckets@.len() == 128
        &&& forall|op: int| 0 <= op < 128 ==> #[trigger] self.buckets@[op]@ == bucket(op as u32)
    }

    /// Builds the buckets from the pattern table.
    pub fn new() -> (r: InsnDecoder)
        ensures
            r.wf(),
    {
        let table = patterns();
        let mut buckets: Vec<Vec<Pattern>> = Vec::new();
        let mut op: usize = 0;
        while op < 128
            invariant
                op <= 128,
                buckets@.len() == op,
                forall|i: int| 0 <= i < op ==> (#[trigger] buckets@[i])@.len() == 0,
            decreases 128 - op,
        {
            buckets.push(Vec::new());
            op = op + 1;
        }
        let mut k: usize = 0;
        while k < table.len()
            invariant
                table@ == pattern_table(),
                k <= table@.len(),
                buckets@.len() == 128,
                forall|i: int|
                    0 <= i < 128 ==> (#[trigger] buckets@[i])@ == table@.take(k as int).filter(
                        |p: Pattern| opcode_bits(p.match_code) == i as u32,
                    ),
            decreases table@.len() - k,
        {
            let p = table[k];
            let o = (p.match_code & 0x7f) as usize;
            proof {
                lemma_low7(p.match_code);
                reveal(Seq::filter);
                assert(table@.take(k + 1).drop_last() =~= table@.take(k as int));
                assert(table@.take(k + 1).last() == p);
            }
            let mut b = Vec::new();
            std::mem::swap(&mut b, &mut buckets[o]);
            b.push(p);
            buckets.set(o, b);
            k = k + 1;
        }
        proof {
            assert(table@.take(table@.len() as int) =~= pattern_table());
        }
        InsnDecoder { buckets }
    }

    /// Decodes `code` by scanning its bucket; the first match wins.
    pub fn decode(&self, code: u32) -> (r: Option<Insn>)
        requires
            self.wf(),
        ensures
            r == spec_decode(code),
    {
        let op = (code & 0x7f) as usize;
        proof {
            lemma_low7(code);
        }
        let v = &self.buckets[op];
        let mut i: usize = 0;
        assert(v@.skip(0) =~= v@);
        while i < v.len()
            invariant
                v@ == bucket(opcode_bits(code)),
                i <= v@.len(),
                first_match(v@, code) == first_match(v@.skip(i as int), code),
            decreases v@.len() - i,
        {
            let p = v[i];
            if code & p.mask == p.match_code {
                return Some(Insn { op: p.op, code });
            }
            assert(v@.skip(i as int).drop_first() =~= v@.skip(i + 1));
            i = i + 1;
        }
        None
    }
}

} // verus!
