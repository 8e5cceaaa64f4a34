//! Register-file snapshot for MIPS64: thirty-two general-purpose
//! slots and thirty-two floating-point slots, indexed by the DWARF
//! numbering of `gimli::MIPS` (general-purpose registers 0 through
//! 31, floating-point registers 32 through 63).
//!
//! The capture and restoration entry points that move a snapshot to
//! and from the live machine state are hand-written target assembly
//! and live outside this library.
use vstd::prelude::*;
use vstd::array::spec_array_update;
use gimli::Register;
use crate::arch::mips::UnwindWord;
use crate::decimal::dec_seq;
use crate::decimal::u64_to_dec;

verus! {

/// Number of distinct DWARF register rules the frame walker may
/// track, matching the count the platform's tables allow for.
pub const MAX_REG_RULES: usize = 188;

/// Number of general-purpose slots, and of floating-point slots.
pub const GP_REGS: u16 = 32;

/// One more than the largest register number a snapshot stores.
pub const REG_LIMIT: u16 = 64;

/// One more than the largest register number the MIPS DWARF numbering
/// assigns a canonical name to (`$hi` and `$lo` follow the
/// floating-point bank).
pub const NAMED_LIMIT: u16 = 66;

/// The canonical DWARF name of MIPS register `n`, as `gimli` spells
/// it.
pub uninterp spec fn mips_register_name(n: u16) -> Seq<char>;

/// Relies on `gimli::MIPS::register_name`: the canonical name of a
/// MIPS register, `Some` exactly for numbers 0 through 65, and a
/// function of the register number alone.
#[verifier::external_body]
fn register_name(reg: Register) -> (r: Option<&'static str>)
    ensures
        r is Some <==> reg.0 < NAMED_LIMIT,
        r matches Some(name) ==> name@ == mips_register_name(reg.0),
{
    gimli::MIPS::register_name(reg)
}

/// A complete snapshot of the MIPS64 register file. Slot `n` of `gp`
/// holds DWARF register `n`; slot `n` of `fp` holds DWARF register
/// `32 + n`. Floating-point registers are stored as raw 64-bit
/// patterns, as the restore sequence reloads them verbatim.
#[derive(Clone, Copy)]
pub struct Context {
    pub gp: [UnwindWord; 32],
    pub fp: [u64; 32],
}

impl Context {
    /// A register number this snapshot stores a slot for.
    pub open spec fn spec_valid(n: u16) -> bool {
        n < REG_LIMIT
    }

    /// The value stored for register `n`.
    pub open spec fn read_spec(self, n: u16) -> u64
        recommends
            Self::spec_valid(n),
    {
        if n < GP_REGS {
            self.gp@[n as int]
        } else {
            self.fp@[n - GP_REGS]
        }
    }

    /// The snapshot with register `n` set to `v` and every other
    /// slot unchanged.
    pub open spec fn write_spec(self, n: u16, v: u64) -> Context
        recommends
            Self::spec_valid(n),
    {
        if n < GP_REGS {
            Context { gp: spec_array_update(self.gp, n as int, v), ..self }
        } else {
            Context { fp: spec_array_update(self.fp, n - GP_REGS, v), ..self }
        }
    }

    /// Every slot holds zero.
    pub open spec fn all_zero(self) -> bool {
        forall|n: u16| Self::spec_valid(n) ==> #[trigger] self.read_spec(n) == 0
    }

    /// A fresh snapshot with every slot zero.
    pub fn new() -> (c: Context)
        ensures
            c.all_zero(),
    {
        let c = Context { gp: [0u64; 32], fp: [0u64; 32] };
        proof {
            assert forall|n: u16| Self::spec_valid(n) implies c.read_spec(n) == 0 by {
                if n < GP_REGS {
                    assert(c.gp@[n as int] == 0);
                } else {
                    assert(c.fp@[n - GP_REGS] == 0);
                }
            }
        }
        c
    }

    /// Whether this snapshot stores a slot for `reg`.
    pub fn is_valid(reg: Register) -> (r: bool)
        ensures
            r == Self::spec_valid(reg.0),
    {
        reg.0 < REG_LIMIT
    }

    /// The value stored for `reg`. Referencing a register outside
    /// the stored range is a contract violation: it signals corrupt
    /// call-frame information or an extension register this layer
    /// does not model, so no slot may be returned for it.
    pub fn index(&self, reg: Register) -> (r: UnwindWord)
        requires
            Self::spec_valid(reg.0),
        ensures
            r == self.read_spec(reg.0),
    {
        if reg.0 < GP_REGS {
            self.gp[reg.0 as usize]
        } else {
            self.fp[(reg.0 - GP_REGS) as usize]
        }
    }

    /// Stores `value` for `reg`, leaving every other slot unchanged.
    /// The same range contract as `index` applies.
    pub fn index_mut(&mut self, reg: Register, value: UnwindWord)
        requires
            Self::spec_valid(reg.0),
        ensures
            *final(self) == old(self).write_spec(reg.0, value),
    {
        if reg.0 < GP_REGS {
            self.gp[reg.0 as usize] = value;
        } else {
            self.fp[(reg.0 - GP_REGS) as usize] = value;
        }
    }

    /// The value stored for `reg`, or `None` for a register outside
    /// the stored range — never a made-up value. This is the checked
    /// face of `index` for callers that cannot rule the range out
    /// beforehand.
    pub fn try_index(&self, reg: Register) -> (r: Option<UnwindWord>)
        ensures
            r is Some <==> Self::spec_valid(reg.0),
            r matches Some(v) ==> v == self.read_spec(reg.0),
    {
        if reg.0 < REG_LIMIT {
            Some(self.index(reg))
        } else {
            None
        }
    }

    /// Every stored register, in numbering order, as its canonical
    /// DWARF name paired with the stored value: the inspectable form
    /// of the snapshot, for diagnostics and tests.
    pub fn dump(&self) -> (r: Vec<(&'static str, u64)>)
        ensures
            r@.len() == REG_LIMIT,
            forall|i: int|
                0 <= i < REG_LIMIT ==> (#[trigger] r@[i]).1 == self.read_spec(i as u16),
            forall|i: int|
                0 <= i < REG_LIMIT ==> (#[trigger] r@[i]).0@ == mips_register_name(i as u16),
    {
        let mut r: Vec<(&'static str, u64)> = Vec::new();
        let mut n: u16 = 0;
        while n < REG_LIMIT
            invariant
                n <= REG_LIMIT,
                r@.len() == n,
                forall|i: int| 0 <= i < n ==> (#[trigger] r@[i]).1 == self.read_spec(i as u16),
                forall|i: int|
                    0 <= i < n ==> (#[trigger] r@[i]).0@ == mips_register_name(i as u16),
            decreases REG_LIMIT - n,
        {
            let reg = Register(n);
            let name = register_name(reg).unwrap();
            r.push((name, self.index(reg)));
            n = n + 1;
        }
        r
    }

    /// One line of the human-readable listing: the canonical name of
    /// register `n`, a separator, its stored value in decimal, and a
    /// newline.
    pub open spec fn line_spec(self, n: u16) -> Seq<char> {
        mips_register_name(n) + ": "@ + dec_seq(self.read_spec(n)) + "\n"@
    }

    /// The listing of the first `k` stored registers.
    pub open spec fn listing_spec(self, k: int) -> Seq<char>
        decreases k,
    {
        if k <= 0 {
            Seq::empty()
        } else {
            self.listing_spec(k - 1) + self.line_spec((k - 1) as u16)
        }
    }

    /// A human-readable listing of the whole snapshot: every stored
    /// register's canonical DWARF name and current value, one per
    /// line, in numbering order.
    pub fn describe(&self) -> (r: String)
        ensures
            r@ == self.listing_spec(REG_LIMIT as int),
    {
        let mut s = String::new();
        let mut n: u16 = 0;
        while n < REG_LIMIT
            invariant
                n <= REG_LIMIT,
                s@ == self.listing_spec(n as int),
            decreases REG_LIMIT - n,
        {
            let reg = Register(n);
            s.append(register_name(reg).unwrap());
            s.append(": ");
            let d = u64_to_dec(self.index(reg));
            s.append(d.as_str());
            s.append("\n");
            proof {
                assert(s@ =~= self.listing_spec(n as int + 1));
            }
            n = n + 1;
        }
        s
    }
}

impl Default for Context {
    /// A default snapshot has every slot zero.
    fn default() -> (c: Context)
        ensures
            c.all_zero(),
    {
        Context::new()
    }
}

/// A slot written is the slot read back, and no other slot moves:
/// writing `v` for register `n` and then reading register `m` yields
/// `v` where `m == n`, and the old value of `m` otherwise.
pub proof fn lemma_write_then_read(c: Context, n: u16, m: u16, v: u64)
    requires
        Context::spec_valid(n),
        Context::spec_valid(m),
    ensures
        m == n ==> c.write_spec(n, v).read_spec(m) == v,
        m != n ==> c.write_spec(n, v).read_spec(m) == c.read_spec(m),
{
}

/// A snapshot with every slot zero reads zero at every register in
/// the stored range: a default-constructed snapshot is indexable
/// everywhere in that range and yields zero.
pub proof fn lemma_zero_context_reads_zero(c: Context, reg: Register)
    requires
        c.all_zero(),
        Context::spec_valid(reg.0),
    ensures
        c.read_spec(reg.0) == 0,
{
}

} // verus!
