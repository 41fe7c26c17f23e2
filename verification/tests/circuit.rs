use circuit_core::backend::sys_builder_new;
use circuit_core::base::{
    is_boolean_identity_vanishes, is_zero_identity_vanishes, range_identity_vanishes, BaseOp,
};
use circuit_core::config::{BaseConfig, BASE_OP_KINDS};
use circuit_core::lookup::LookupOp;
use circuit_core::ops::{
    dot_layout, identity_layout, pairwise_layout, range_check_ok, DotOp, IdentityOp, PairwiseOp,
    RangeCheckOp, SumOp,
};
use circuit_core::table::{rows_contain_pair, Table};
use circuit_core::tensor::{ValTensor, VarTensor};
use circuit_core::{CheckMode, CircuitError};

fn advice_triple(w: usize, h: usize) -> (circuit_core::backend::SysBuilder, Vec<VarTensor>, VarTensor) {
    let mut cs = sys_builder_new();
    let a = VarTensor::new_advice(&mut cs, w, h);
    let b = VarTensor::new_advice(&mut cs, w, h);
    let out = VarTensor::new_advice(&mut cs, w, h);
    (cs, vec![a, b], out)
}

#[test]
fn configure_makes_one_selector_per_op_and_column() {
    let w = 3;
    let (mut cs, inputs, output) = advice_triple(w, 8);
    let config = BaseConfig::configure(&mut cs, inputs, output, CheckMode::SAFE, 2);
    assert_eq!(config.selectors.len(), w * BASE_OP_KINDS);
    // no duplicate (operation, column) keys
    for i in 0..config.selectors.len() {
        for j in (i + 1)..config.selectors.len() {
            let a = &config.selectors[i];
            let b = &config.selectors[j];
            assert!(!(a.op == b.op && a.col == b.col));
        }
    }
    // every pair is present: w selectors per base operation
    let ops = [
        BaseOp::Add,
        BaseOp::Sub,
        BaseOp::Dot,
        BaseOp::Sum,
        BaseOp::Neg,
        BaseOp::Mult,
        BaseOp::Range { tol: 2 },
        BaseOp::IsZero,
        BaseOp::Identity,
        BaseOp::IsBoolean,
    ];
    for op in ops.iter() {
        let mut count = 0;
        for col in 0..w {
            assert!(config
                .selectors
                .iter()
                .any(|e| e.op == *op && e.col == col));
            count += 1;
        }
        assert_eq!(count, w);
    }
    assert!(config.lookup_selectors.is_empty());
    assert!(config.tables.is_empty());
}

#[test]
fn check_mode_parses_case_insensitively() {
    assert_eq!(CheckMode::from("safe"), CheckMode::SAFE);
    assert_eq!(CheckMode::from("SAFE"), CheckMode::SAFE);
    assert_eq!(CheckMode::from("Safe"), CheckMode::SAFE);
    assert_eq!(CheckMode::from("unsafe"), CheckMode::UNSAFE);
    assert_eq!(CheckMode::from("UnSaFe"), CheckMode::UNSAFE);
    assert_eq!(CheckMode::parse("resilient"), None);
    assert_eq!(CheckMode::parse(""), None);
    assert_eq!(CheckMode::parse("safe "), None);
}

#[test]
fn range_identity_boundaries() {
    // tolerance 5: vanishes exactly on [-5, 5)
    assert!(range_identity_vanishes(4, 5));
    assert!(range_identity_vanishes(0, 5));
    assert!(range_identity_vanishes(-5, 5));
    assert!(!range_identity_vanishes(5, 5));
    assert!(!range_identity_vanishes(-6, 5));
    assert!(!range_identity_vanishes(100, 5));
    // tolerance 1: only -1 and 0
    assert!(range_identity_vanishes(-1, 1));
    assert!(range_identity_vanishes(0, 1));
    assert!(!range_identity_vanishes(1, 1));
}

#[test]
fn boolean_identity_vanishes_only_on_zero_and_one() {
    assert!(is_boolean_identity_vanishes(0));
    assert!(is_boolean_identity_vanishes(1));
    let samples = [-3, -1, 2, 5, 17, 4096, -4096, 987654321];
    for x in samples {
        assert!(!is_boolean_identity_vanishes(x));
    }
    // a pseudo-random sweep: no value outside {0, 1} ever vanishes
    let mut state: u64 = 0x2545_F491_4F6C_DD1D;
    for _ in 0..1000 {
        state = state.wrapping_mul(6364136223846793005).wrapping_add(1442695040888963407);
        let x = (state >> 16) as i64;
        if x != 0 && x != 1 {
            assert!(!is_boolean_identity_vanishes(x));
        }
    }
}

#[test]
fn zero_identity_vanishes_only_on_zero() {
    assert!(is_zero_identity_vanishes(0));
    assert!(!is_zero_identity_vanishes(1));
    assert!(!is_zero_identity_vanishes(-1));
    assert!(!is_zero_identity_vanishes(31337));
}

#[test]
fn configure_lookup_twice_keeps_one_table() {
    let (mut cs, inputs, output) = advice_triple(2, 8);
    let mut config = BaseConfig::configure(&mut cs, inputs, output, CheckMode::SAFE, 2);
    let lk_in = VarTensor::new_advice(&mut cs, 2, 8);
    let lk_out = VarTensor::new_advice(&mut cs, 2, 8);
    let nl = LookupOp::ReLu { scale: 1 };
    assert!(config
        .configure_lookup(&mut cs, &lk_in, &lk_out, 4, &nl)
        .is_ok());
    assert_eq!(config.tables.len(), 1);
    let selectors_after_first = config.lookup_selectors.len();
    assert_eq!(selectors_after_first, 2);
    // second request for the same operation: no new table, no new selectors
    assert!(config
        .configure_lookup(&mut cs, &lk_in, &lk_out, 4, &nl)
        .is_ok());
    assert_eq!(config.tables.len(), 1);
    assert_eq!(config.lookup_selectors.len(), selectors_after_first);
    // a different operation gets its own table
    let nl2 = LookupOp::GreaterThan { bound: 0 };
    assert!(config
        .configure_lookup(&mut cs, &lk_in, &lk_out, 4, &nl2)
        .is_ok());
    assert_eq!(config.tables.len(), 2);
}

#[test]
fn layout_tables_populates_each_table_once() {
    let (mut cs, inputs, output) = advice_triple(1, 8);
    let mut config = BaseConfig::configure(&mut cs, inputs, output, CheckMode::SAFE, 2);
    let lk_in = VarTensor::new_advice(&mut cs, 1, 8);
    let lk_out = VarTensor::new_advice(&mut cs, 1, 8);
    let nl = LookupOp::ReLu { scale: 2 };
    config
        .configure_lookup(&mut cs, &lk_in, &lk_out, 4, &nl)
        .unwrap();
    let plans = config.layout_tables();
    assert_eq!(plans.len(), 1);
    assert_eq!(plans[0].rows.len(), 16);
    assert!(config.tables.iter().all(|t| t.is_assigned));
    // second call: every table already populated, nothing to do
    let plans2 = config.layout_tables();
    assert!(plans2.is_empty());
    assert!(config.tables.iter().all(|t| t.is_assigned));
}

#[test]
fn table_rows_walk_the_domain_in_order() {
    let mut cs = sys_builder_new();
    let nl = LookupOp::ReLu { scale: 2 };
    let mut table = Table::configure(&mut cs, 4, &nl);
    let rows = table.layout().unwrap();
    assert_eq!(rows.len(), 16);
    assert_eq!(rows[0], (-8, 0));
    assert_eq!(rows[8], (0, 0));
    assert_eq!(rows[15], (7, 3));
    // repopulation is refused
    assert_eq!(table.layout(), Err(CircuitError::TableAlreadyAssigned));
}

#[test]
fn layout_copies_instance_values_into_witness() {
    let mut config = BaseConfig::dummy(16);
    let values = vec![ValTensor::Instance {
        inner: vec![7, -2, 9],
    }];
    let mut offset: usize = 0;
    let out = config
        .layout(&values, &mut offset, &IdentityOp)
        .unwrap()
        .unwrap();
    match out {
        ValTensor::Value { inner } => assert_eq!(inner, vec![7, -2, 9]),
        ValTensor::Instance { .. } => panic!("instance survived layout"),
    }
    // three rows for the instance copy, three for the identity itself
    assert_eq!(offset, 6);
}

#[test]
fn layout_passes_witness_values_through_without_copy_rows() {
    let mut config = BaseConfig::dummy(16);
    let values = vec![ValTensor::Value {
        inner: vec![4, 4, 4],
    }];
    let mut offset: usize = 0;
    let out = config
        .layout(&values, &mut offset, &IdentityOp)
        .unwrap()
        .unwrap();
    match out {
        ValTensor::Value { inner } => assert_eq!(inner, vec![4, 4, 4]),
        ValTensor::Instance { .. } => panic!("instance survived layout"),
    }
    // only the identity's own rows: no instance copy happened
    assert_eq!(offset, 3);
}

#[test]
fn pairwise_add_mult_and_range_scenario() {
    let (mut cs, inputs, output) = advice_triple(1, 4);
    let mut config = BaseConfig::configure(&mut cs, inputs, output, CheckMode::SAFE, 2);
    let mut offset: usize = 0;
    let a = ValTensor::Value { inner: vec![3] };
    let b = ValTensor::Value { inner: vec![5] };
    let add = PairwiseOp { base: BaseOp::Add };
    let out = config
        .layout(&vec![a.duplicate(), b.duplicate()], &mut offset, &add)
        .unwrap()
        .unwrap();
    match &out {
        ValTensor::Value { inner } => assert_eq!(inner, &vec![8]),
        _ => panic!(),
    }
    assert_eq!(offset, 1);
    let mult = PairwiseOp {
        base: BaseOp::Mult,
    };
    let out = config
        .layout(&vec![a, b], &mut offset, &mult)
        .unwrap()
        .unwrap();
    match &out {
        ValTensor::Value { inner } => assert_eq!(inner, &vec![15]),
        _ => panic!(),
    }
    assert_eq!(offset, 2);
    // raw 10 against expected 9 with tolerance 2: difference 1 is inside [-2, 2)
    assert!(range_check_ok(&vec![10], &vec![9], 2));
    assert!(range_identity_vanishes(10 - 9, 2));
    // raw 10 against expected 7: difference 3 is outside, the witness is rejected
    assert!(!range_check_ok(&vec![10], &vec![7], 2));
    assert!(!range_identity_vanishes(10 - 7, 2));
    // the same checks through the dispatch interface: an accepted check
    // consumes its row and produces no output, a violated one is refused
    let check = RangeCheckOp { tol: 2 };
    let raw = ValTensor::Value { inner: vec![10] };
    let expected = ValTensor::Value { inner: vec![9] };
    let r = config
        .layout(&vec![raw.duplicate(), expected], &mut offset, &check)
        .unwrap();
    assert!(r.is_none());
    assert_eq!(offset, 3);
    let too_far = ValTensor::Value { inner: vec![7] };
    assert!(config.layout(&vec![raw, too_far], &mut offset, &check).is_err());
    assert_eq!(offset, 3);
}

#[test]
fn configure_accepts_constant_backed_inputs() {
    let mut cs = sys_builder_new();
    let a = VarTensor::new_advice(&mut cs, 2, 8);
    let b = VarTensor::new_fixed(&mut cs, 2, 8);
    let out = VarTensor::new_advice(&mut cs, 2, 8);
    assert_eq!(b.num_cols(), 2);
    assert_eq!(b.col_size(), 8);
    let config = BaseConfig::configure(&mut cs, vec![a, b], out, CheckMode::SAFE, 2);
    assert_eq!(config.selectors.len(), 2 * BASE_OP_KINDS);
    // a lookup whose output lives in fixed columns is accepted as well
    let mut config = config;
    let lk_in = VarTensor::new_advice(&mut cs, 1, 8);
    let lk_out = VarTensor::new_fixed(&mut cs, 1, 8);
    let nl = LookupOp::ReLu { scale: 1 };
    assert!(config
        .configure_lookup(&mut cs, &lk_in, &lk_out, 4, &nl)
        .is_ok());
    assert_eq!(config.tables.len(), 1);
}

#[test]
fn pairwise_layout_error_cases() {
    let mut config = BaseConfig::dummy(4);
    let mut offset: usize = 0;
    let one = vec![ValTensor::Value { inner: vec![1] }];
    assert_eq!(
        pairwise_layout(&mut config, &BaseOp::Add, &one, &mut offset),
        Err(CircuitError::DimMismatch("pairwise arity"))
    );
    let uneven = vec![
        ValTensor::Value { inner: vec![1, 2] },
        ValTensor::Value { inner: vec![1] },
    ];
    assert_eq!(
        pairwise_layout(&mut config, &BaseOp::Add, &uneven, &mut offset),
        Err(CircuitError::DimMismatch("pairwise operand length"))
    );
    let pair = vec![
        ValTensor::Value { inner: vec![1] },
        ValTensor::Value { inner: vec![2] },
    ];
    assert_eq!(
        pairwise_layout(&mut config, &BaseOp::Dot, &pair, &mut offset),
        Err(CircuitError::UnsupportedOp)
    );
    assert_eq!(offset, 0);
    let ident_missing = vec![
        ValTensor::Value { inner: vec![1] },
        ValTensor::Value { inner: vec![2] },
    ];
    assert_eq!(
        identity_layout(&mut config, &ident_missing, &mut offset),
        Err(CircuitError::DimMismatch("identity arity"))
    );
}

#[test]
fn inactive_lookup_row_satisfied_through_default_pair() {
    let (mut cs, inputs, output) = advice_triple(1, 8);
    let mut config = BaseConfig::configure(&mut cs, inputs, output, CheckMode::SAFE, 2);
    let lk_in = VarTensor::new_advice(&mut cs, 1, 8);
    let lk_out = VarTensor::new_advice(&mut cs, 1, 8);
    // a nonlinear operation with 4 bits of precision: a 16-point domain
    let nl = LookupOp::ReLu { scale: 1 };
    config
        .configure_lookup(&mut cs, &lk_in, &lk_out, 4, &nl)
        .unwrap();
    let plans = config.layout_tables();
    assert_eq!(plans.len(), 1);
    let rows = &plans[0].rows;
    assert_eq!(rows.len(), 16);
    // on an inactive row the lookup sees the default pair, whatever the
    // cell holds; that pair must be in the table
    let (dx, dy) = nl.default_pair();
    assert_eq!((dx, dy), (0, 0));
    assert!(rows_contain_pair(rows, dx, dy));
    // an arbitrary cell value plays no part when the selector is off
    for arbitrary in [-12345i64, 0, 99999] {
        let blended_in = if false { arbitrary } else { dx };
        let blended_out = if false { arbitrary } else { dy };
        assert!(rows_contain_pair(rows, blended_in, blended_out));
    }
}

#[test]
fn accumulation_ops_store_running_partials() {
    let mut config = BaseConfig::dummy(16);
    let mut offset: usize = 0;
    let a = ValTensor::Value {
        inner: vec![1, 2, 3],
    };
    let b = ValTensor::Value {
        inner: vec![4, 5, 6],
    };
    let out = config
        .layout(&vec![a, b], &mut offset, &DotOp)
        .unwrap()
        .unwrap();
    // partial sums 1*4, 1*4 + 2*5, 1*4 + 2*5 + 3*6
    assert_eq!(out, ValTensor::Value { inner: vec![4, 14, 32] });
    assert_eq!(offset, 3);
    let c = ValTensor::Value {
        inner: vec![10, -3, 7],
    };
    let out = config
        .layout(&vec![c], &mut offset, &SumOp)
        .unwrap()
        .unwrap();
    assert_eq!(out, ValTensor::Value { inner: vec![10, 7, 14] });
    assert_eq!(offset, 6);
    // mismatched operand lengths are a dimension error
    let short = vec![
        ValTensor::Value { inner: vec![1] },
        ValTensor::Value { inner: vec![1, 2] },
    ];
    assert_eq!(
        dot_layout(&mut config, &short, &mut offset),
        Err(CircuitError::DimMismatch("dot operand length"))
    );
}

#[test]
fn lookup_instantiation_failures_are_refused() {
    let (mut cs, inputs, output) = advice_triple(1, 8);
    let mut config = BaseConfig::configure(&mut cs, inputs, output, CheckMode::SAFE, 2);
    let lk_in = VarTensor::new_advice(&mut cs, 1, 8);
    let lk_out = VarTensor::new_advice(&mut cs, 1, 8);
    // a zero precision has an empty domain window and cannot be built
    assert_eq!(
        config.configure_lookup(&mut cs, &lk_in, &lk_out, 0, &LookupOp::ReLu { scale: 1 }),
        Err(CircuitError::LookupInstantiation)
    );
    // a rescaling by zero is undefined on every domain point
    assert_eq!(
        config.configure_lookup(&mut cs, &lk_in, &lk_out, 4, &LookupOp::ReLu { scale: 0 }),
        Err(CircuitError::LookupInstantiation)
    );
    // a precision past the supported window is refused as well
    assert_eq!(
        config.configure_lookup(&mut cs, &lk_in, &lk_out, 40, &LookupOp::ReLu { scale: 1 }),
        Err(CircuitError::LookupInstantiation)
    );
    assert!(config.tables.is_empty());
    assert!(config.lookup_selectors.is_empty());
}

#[test]
fn base_op_attributes() {
    assert_eq!(BaseOp::Add.num_inputs(), 2);
    assert_eq!(BaseOp::Dot.num_inputs(), 2);
    assert_eq!(BaseOp::Sum.num_inputs(), 1);
    assert_eq!(BaseOp::IsBoolean.num_inputs(), 1);
    assert_eq!(BaseOp::Dot.query_offset_rng(), (-1, 2));
    assert_eq!(BaseOp::Sum.query_offset_rng(), (-1, 2));
    assert_eq!(BaseOp::Add.query_offset_rng(), (0, 1));
    assert_eq!(BaseOp::Dot.constraint_idx(), 1);
    assert_eq!(BaseOp::Add.constraint_idx(), 0);
    assert_eq!(BaseOp::Add.f(3, 5, 0), 8);
    assert_eq!(BaseOp::Sub.f(3, 5, 0), -2);
    assert_eq!(BaseOp::Mult.f(3, 5, 0), 15);
    assert_eq!(BaseOp::Dot.f(3, 5, 7), 22);
    assert_eq!(BaseOp::Sum.f(0, 5, 7), 12);
    assert_eq!(BaseOp::Neg.f(0, 5, 0), -5);
    assert_eq!(BaseOp::Identity.f(0, 5, 0), 5);
    assert_eq!(BaseOp::Add.as_str(), "ADD");
    assert_eq!(BaseOp::Range { tol: 3 }.as_str(), "RANGE");
}

#[test]
fn lookup_op_functions() {
    let relu = LookupOp::ReLu { scale: 2 };
    assert_eq!(relu.f(-5), 0);
    assert_eq!(relu.f(0), 0);
    assert_eq!(relu.f(9), 4);
    assert_eq!(relu.default_pair(), (0, 0));
    let gt = LookupOp::GreaterThan { bound: 3 };
    assert_eq!(gt.f(4), 1);
    assert_eq!(gt.f(3), 0);
    assert_eq!(gt.f(-10), 0);
    assert_eq!(gt.default_pair(), (0, 0));
    let gt_neg = LookupOp::GreaterThan { bound: -1 };
    assert_eq!(gt_neg.default_pair(), (0, 1));
    assert_eq!(relu.as_str(), "RELU");
    assert_eq!(gt.as_str(), "GREATER_THAN");
    assert_eq!(relu, LookupOp::ReLu { scale: 2 });
    assert_ne!(relu, LookupOp::ReLu { scale: 3 });
}

#[test]
fn dummy_config_is_empty() {
    let config = BaseConfig::dummy(32);
    assert_eq!(config.inputs.len(), 2);
    assert!(config.selectors.is_empty());
    assert!(config.lookup_selectors.is_empty());
    assert!(config.tables.is_empty());
    assert_eq!(config.check_mode, CheckMode::SAFE);
    match &config.output {
        VarTensor::Dummy { col_size } => assert_eq!(*col_size, 32),
        _ => panic!("dummy output is not a placeholder"),
    }
}

#[test]
fn var_tensor_shapes() {
    let mut cs = sys_builder_new();
    let adv = VarTensor::new_advice(&mut cs, 3, 8);
    assert_eq!(adv.num_cols(), 3);
    assert_eq!(adv.col_size(), 8);
    let dummy = VarTensor::dummy(5);
    assert_eq!(dummy.num_cols(), 1);
    assert_eq!(dummy.col_size(), 5);
    let empty = VarTensor::Empty;
    assert_eq!(empty.num_cols(), 0);
    assert_eq!(empty.col_size(), 0);
}
