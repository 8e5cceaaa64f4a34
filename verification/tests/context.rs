use gimli::Register;
use unwind_arch::decimal::u64_to_dec;
use unwind_arch::unwinder::arch::mips64::{Context, GP_REGS, MAX_REG_RULES, REG_LIMIT};

#[test]
fn default_context_reads_zero_everywhere() {
    let c = Context::default();
    for n in 0..REG_LIMIT {
        assert_eq!(c.try_index(Register(n)), Some(0));
        assert_eq!(c.index(Register(n)), 0);
    }
}

#[test]
fn new_context_equals_default() {
    let a = Context::new();
    let b = Context::default();
    assert_eq!(a.gp, b.gp);
    assert_eq!(a.fp, b.fp);
}

#[test]
fn out_of_range_register_is_refused() {
    let c = Context::new();
    for n in [REG_LIMIT, 65, 66, 100, 187, u16::MAX] {
        assert_eq!(c.try_index(Register(n)), None);
    }
    assert!(!Context::is_valid(Register(REG_LIMIT)));
    assert!(Context::is_valid(Register(REG_LIMIT - 1)));
}

#[test]
fn written_sentinels_read_back_exactly() {
    let mut c = Context::new();
    for n in 0..REG_LIMIT {
        c.index_mut(Register(n), 0xa5a5_0000_0000_0000 | n as u64);
    }
    for n in 0..REG_LIMIT {
        assert_eq!(c.index(Register(n)), 0xa5a5_0000_0000_0000 | n as u64);
    }
}

#[test]
fn writing_one_slot_leaves_the_others() {
    let mut c = Context::new();
    c.index_mut(Register(29), 0xdead_beef);
    for n in 0..REG_LIMIT {
        if n == 29 {
            assert_eq!(c.index(Register(n)), 0xdead_beef);
        } else {
            assert_eq!(c.index(Register(n)), 0);
        }
    }
}

#[test]
fn gp_and_fp_banks_are_separate() {
    let mut c = Context::new();
    c.index_mut(Register(5), 7);
    c.index_mut(Register(GP_REGS + 5), 9);
    assert_eq!(c.gp[5], 7);
    assert_eq!(c.fp[5], 9);
    assert_eq!(c.index(Register(5)), 7);
    assert_eq!(c.index(Register(GP_REGS + 5)), 9);
}

#[test]
fn dump_lists_canonical_names_and_values() {
    let mut c = Context::new();
    c.index_mut(Register(2), 11);
    c.index_mut(Register(40), 22);
    let entries = c.dump();
    assert_eq!(entries.len(), REG_LIMIT as usize);
    for n in 0..REG_LIMIT {
        let (name, value) = entries[n as usize];
        assert_eq!(name, gimli::MIPS::register_name(Register(n)).unwrap());
        assert_eq!(value, c.index(Register(n)));
    }
    assert_eq!(entries[0].0, "$0");
    assert_eq!(entries[2], ("$2", 11));
    assert_eq!(entries[32].0, "$f0");
    assert_eq!(entries[40], ("$f8", 22));
    assert_eq!(entries[63].0, "$f31");
}

#[test]
fn describe_lists_every_register_in_decimal() {
    let mut c = Context::new();
    c.index_mut(Register(29), 123456789);
    c.index_mut(Register(33), u64::MAX);
    let mut expected = String::new();
    for n in 0..REG_LIMIT {
        let name = gimli::MIPS::register_name(Register(n)).unwrap();
        expected.push_str(&format!("{}: {}\n", name, c.index(Register(n))));
    }
    assert_eq!(c.describe(), expected);
}

#[test]
fn decimal_rendering_is_exact() {
    assert_eq!(u64_to_dec(0), "0");
    assert_eq!(u64_to_dec(7), "7");
    assert_eq!(u64_to_dec(10), "10");
    assert_eq!(u64_to_dec(255), "255");
    assert_eq!(u64_to_dec(1000), "1000");
    assert_eq!(u64_to_dec(123456789), "123456789");
    assert_eq!(u64_to_dec(u64::MAX), "18446744073709551615");
}

#[test]
fn reg_rule_budget_matches_platform_tables() {
    assert_eq!(MAX_REG_RULES, 188);
}
