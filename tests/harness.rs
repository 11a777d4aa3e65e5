use fhe_bench::arith::{expected_plain, OpKind};
use fhe_bench::experiment::{Experiment, InputError, Verdict};
use fhe_bench::operand::SharedOperand;
use fhe_bench::outcome::{collate, settle, CollateError, Completed, OperationOutcome, RunRecord};
use fhe_bench::registry::{Operation, Registry, RegistryError};
use fhe_bench::width::Width;

fn ok_run(name: &str, value: u64) -> Completed {
    Completed {
        name: name.to_string(),
        run: Ok(RunRecord { elapsed_nanos: 1000, value }),
    }
}

fn faulted_run(name: &str) -> Completed {
    Completed {
        name: name.to_string(),
        run: Err("attempt to divide by zero".to_string()),
    }
}

#[test]
fn width_bits_and_modulus() {
    assert_eq!(Width::W8.bits(), 8);
    assert_eq!(Width::W16.bits(), 16);
    assert_eq!(Width::W32.bits(), 32);
    assert_eq!(Width::W8.modulus(), 256);
    assert_eq!(Width::W16.modulus(), 65536);
    assert_eq!(Width::W32.modulus(), 4294967296);
    assert!(Width::W8.fits(255));
    assert!(!Width::W8.fits(256));
    assert!(Width::W32.fits(4294967295));
    assert!(!Width::W32.fits(4294967296));
}

#[test]
fn eight_bit_sum_and_difference() {
    assert_eq!(expected_plain(OpKind::Sum, Width::W8, 20, 10), Some(30));
    assert_eq!(expected_plain(OpKind::Difference, Width::W8, 20, 10), Some(10));
}

#[test]
fn eight_bit_sum_wraps_around() {
    assert_eq!(expected_plain(OpKind::Sum, Width::W8, 250, 10), Some(4));
}

#[test]
fn sixteen_bit_scenario() {
    assert_eq!(expected_plain(OpKind::Sum, Width::W16, 10, 20), Some(30));
    assert_eq!(expected_plain(OpKind::Difference, Width::W16, 10, 20), Some(65526));
    assert_eq!(expected_plain(OpKind::Product, Width::W16, 10, 20), Some(200));
    assert_eq!(expected_plain(OpKind::Quotient, Width::W16, 10, 20), Some(0));
}

#[test]
fn product_wraps_at_largest_width() {
    let max = 4294967295u64;
    assert_eq!(expected_plain(OpKind::Product, Width::W32, max, max), Some(1));
    assert_eq!(expected_plain(OpKind::Sum, Width::W32, max, 1), Some(0));
    assert_eq!(expected_plain(OpKind::Difference, Width::W32, 0, 1), Some(max));
}

#[test]
fn quotient_by_zero_is_left_to_the_scheme() {
    assert_eq!(expected_plain(OpKind::Quotient, Width::W8, 7, 0), None);
    assert_eq!(expected_plain(OpKind::Quotient, Width::W8, 200, 7), Some(28));
}

#[test]
fn labels_and_costs() {
    assert_eq!(OpKind::Sum.label(), "Sum");
    assert_eq!(OpKind::Difference.label(), "Difference");
    assert_eq!(OpKind::Product.label(), "Product");
    assert_eq!(OpKind::Quotient.label(), "Quotient");
    assert!(!OpKind::Sum.is_costly());
    assert!(!OpKind::Difference.is_costly());
    assert!(OpKind::Product.is_costly());
    assert!(OpKind::Quotient.is_costly());
}

#[test]
fn canonical_registry_orders() {
    let cheap = Registry::canonical(false);
    assert_eq!(cheap.len(), 2);
    assert_eq!(cheap.get(0).name, "Sum");
    assert_eq!(cheap.get(1).name, "Difference");
    let all = Registry::canonical(true);
    assert_eq!(all.len(), 4);
    assert_eq!(all.get(2).kind, OpKind::Product);
    assert_eq!(all.get(3).name, "Quotient");
    assert_eq!(all.position(&"Product".to_string()), Some(2));
    assert_eq!(all.position(&"Modulo".to_string()), None);
}

#[test]
fn duplicate_names_are_rejected() {
    let ops = vec![
        Operation::new("Sum".to_string(), OpKind::Sum),
        Operation::new("Minus".to_string(), OpKind::Difference),
        Operation::new("Sum".to_string(), OpKind::Product),
    ];
    match Registry::new(ops) {
        Err(e) => assert_eq!(e, RegistryError::DuplicateName { first: 0, second: 2 }),
        Ok(_) => panic!("a registry with a repeated name was accepted"),
    }
}

#[test]
fn distinct_names_are_accepted() {
    let ops = vec![
        Operation::new("Sum".to_string(), OpKind::Sum),
        Operation::new("Minus".to_string(), OpKind::Difference),
    ];
    let reg = Registry::new(ops).ok().unwrap();
    assert_eq!(reg.len(), 2);
    assert_eq!(reg.get(1).name, "Minus");
    assert!(Registry::new(Vec::new()).is_ok());
}

#[test]
fn settle_keeps_record_or_fault() {
    let o = settle("Sum".to_string(), Ok(RunRecord { elapsed_nanos: 5, value: 30 }));
    assert!(o.is_success());
    assert_eq!(o.value(), Some(30));
    assert_eq!(o.name(), "Sum");
    let f = settle("Quotient".to_string(), Err("boom".to_string()));
    assert!(!f.is_success());
    assert_eq!(f.value(), None);
    match f {
        OperationOutcome::Failure { name, fault } => {
            assert_eq!(name, "Quotient");
            assert_eq!(fault, "boom");
        }
        OperationOutcome::Success { .. } => panic!("a fault settled as a success"),
    }
}

#[test]
fn collate_restores_registry_order() {
    let reg = Registry::canonical(false);
    let done = vec![ok_run("Difference", 10), ok_run("Sum", 30)];
    let out = collate(&reg, &done).ok().unwrap();
    assert_eq!(out.len(), 2);
    assert_eq!(out[0].name(), "Sum");
    assert_eq!(out[0].value(), Some(30));
    assert_eq!(out[1].name(), "Difference");
    assert_eq!(out[1].value(), Some(10));
}

#[test]
fn one_fault_leaves_siblings_intact() {
    let reg = Registry::canonical(true);
    let done = vec![
        ok_run("Product", 200),
        faulted_run("Quotient"),
        ok_run("Sum", 30),
        ok_run("Difference", 65526),
    ];
    let out = collate(&reg, &done).ok().unwrap();
    assert!(out[0].is_success());
    assert!(out[1].is_success());
    assert!(out[2].is_success());
    assert!(!out[3].is_success());
    assert_eq!(out[3].name(), "Quotient");
    assert_eq!(out[1].value(), Some(65526));
}

#[test]
fn collate_errors() {
    let reg = Registry::canonical(false);
    let unknown = vec![ok_run("Sum", 30), ok_run("Modulo", 0)];
    assert_eq!(collate(&reg, &unknown).err(), Some(CollateError::UnknownName { index: 1 }));
    let repeated = vec![ok_run("Sum", 30), ok_run("Sum", 31)];
    assert_eq!(collate(&reg, &repeated).err(), Some(CollateError::RepeatedName { index: 1 }));
    let missing = vec![ok_run("Difference", 10)];
    assert_eq!(collate(&reg, &missing).err(), Some(CollateError::MissingName { index: 0 }));
}

#[test]
fn experiment_rejects_inputs_out_of_range() {
    assert_eq!(Experiment::new(Width::W8, 256, 1).err(), Some(InputError::FirstOutOfRange));
    assert_eq!(Experiment::new(Width::W8, 1, 256).err(), Some(InputError::SecondOutOfRange));
    let e = Experiment::new(Width::W16, 10, 20).ok().unwrap();
    assert_eq!(e.width(), Width::W16);
    assert_eq!(e.a(), 10);
    assert_eq!(e.b(), 20);
}

#[test]
fn verdicts_on_sixteen_bit_outcomes() {
    let reg = Registry::canonical(true);
    let exp = Experiment::new(Width::W16, 10, 20).ok().unwrap();
    let done = vec![
        ok_run("Sum", 30),
        ok_run("Difference", 65526),
        ok_run("Product", 201),
        faulted_run("Quotient"),
    ];
    let out = collate(&reg, &done).ok().unwrap();
    let v = exp.judge_all(&reg, &out);
    assert_eq!(
        v,
        vec![
            Verdict::Agrees,
            Verdict::Agrees,
            Verdict::Disagrees { expected: 200 },
            Verdict::Faulted
        ]
    );
}

#[test]
fn quotient_by_zero_is_unchecked() {
    let reg = Registry::canonical(true);
    let exp = Experiment::new(Width::W8, 9, 0).ok().unwrap();
    let out = collate(
        &reg,
        &vec![ok_run("Sum", 9), ok_run("Difference", 9), ok_run("Product", 0), ok_run("Quotient", 255)],
    )
    .ok()
    .unwrap();
    let v = exp.judge_all(&reg, &out);
    assert_eq!(v[3], Verdict::Unchecked);
    assert_eq!(v[0], Verdict::Agrees);
}

#[test]
fn shared_operand_is_read_only_and_shared() {
    let first = SharedOperand::wrap(vec![1u8, 2, 3]);
    let second = first.share();
    assert_eq!(*second.payload(), vec![1u8, 2, 3]);
    assert!(std::ptr::eq(first.payload(), second.payload()));
    drop(first);
    assert_eq!(*second.payload(), vec![1u8, 2, 3]);
}
