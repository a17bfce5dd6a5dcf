use std::cell::Cell;
use std::rc::Rc;

use bellpepper_core::{DynamicCS, Index, LinearCombination, SynthesisError, Variable, WitnessCS};

fn fresh() -> WitnessCS<u64> {
    WitnessCS::with_constants(1, 0)
}

#[test]
fn one_is_stable_and_input_zero() {
    let cs = fresh();
    let a = cs.one();
    let b = cs.one();
    assert_eq!(a, b);
    assert_eq!(a, Variable::new_unchecked(Index::Input(0)));
    assert_eq!(a.get_unchecked(), Index::Input(0));
}

#[test]
fn consecutive_aux_allocations_are_adjacent() {
    let mut cs = fresh();
    let x = cs.alloc_strict(|| "x".to_string(), 7).unwrap();
    let y = cs.alloc_strict(|| "y".to_string(), 9).unwrap();
    assert_eq!(x.get_unchecked(), Index::Aux(0));
    assert_eq!(y.get_unchecked(), Index::Aux(1));
}

#[test]
fn aux_indices_strictly_increase() {
    let mut cs = fresh();
    let mut last: Option<usize> = None;
    for k in 0..10u64 {
        let v = cs.alloc_strict(|| "v".to_string(), k).unwrap();
        match v.get_unchecked() {
            Index::Aux(i) => {
                if let Some(p) = last {
                    assert!(i > p);
                }
                last = Some(i);
            }
            Index::Input(_) => panic!("aux allocation returned an input index"),
        }
    }
    assert_eq!(last, Some(9));
}

#[test]
fn input_indices_skip_reserved_zero() {
    let mut cs = fresh();
    let a = cs.alloc_input_strict(|| "a".to_string(), 3).unwrap();
    let aux = cs.alloc_strict(|| "w".to_string(), 4).unwrap();
    let b = cs.alloc_input_strict(|| "b".to_string(), 5).unwrap();
    assert_eq!(a.get_unchecked(), Index::Input(1));
    assert_eq!(b.get_unchecked(), Index::Input(2));
    assert_eq!(aux.get_unchecked(), Index::Aux(0));
    assert_eq!(cs.inputs_slice(), &[1, 3, 5]);
    assert_eq!(cs.aux_slice(), &[4]);
}

#[test]
fn annotations_are_not_evaluated() {
    let calls = Rc::new(Cell::new(0u32));
    let mut cs = fresh();
    let c1 = calls.clone();
    cs.alloc_strict(
        move || {
            c1.set(c1.get() + 1);
            "aux".to_string()
        },
        2,
    )
    .unwrap();
    let c2 = calls.clone();
    cs.alloc_input_strict(
        move || {
            c2.set(c2.get() + 1);
            "input".to_string()
        },
        3,
    )
    .unwrap();
    let c3 = calls.clone();
    cs.enforce(
        move || {
            c3.set(c3.get() + 1);
            "constraint".to_string()
        },
        |lc| lc,
        |lc| lc,
        |lc| lc,
    );
    assert_eq!(calls.get(), 0);
}

#[test]
fn allocate_empty_aux_then_aux_slice_ends_with_written_values() {
    let mut cs = fresh();
    cs.alloc_strict(|| "first".to_string(), 42).unwrap();
    {
        let slots = cs.allocate_empty_aux(3);
        assert_eq!(slots.len(), 3);
        slots[0] = 10;
        slots[1] = 20;
        slots[2] = 30;
    }
    let aux = cs.aux_slice();
    assert_eq!(&aux[aux.len() - 3..], &[10, 20, 30]);
    assert_eq!(aux, &[42, 10, 20, 30]);
}

#[test]
fn reserved_slots_start_at_fill_value() {
    let mut cs = WitnessCS::with_constants(1u64, 77u64);
    let slots = cs.allocate_empty_inputs(2);
    assert_eq!(slots, &[77, 77]);
    assert_eq!(cs.inputs_slice(), &[1, 77, 77]);
}

#[test]
fn allocate_empty_reserves_both_namespaces() {
    let mut cs = fresh();
    {
        let (aux, inputs) = cs.allocate_empty(2, 3);
        assert_eq!(aux.len(), 2);
        assert_eq!(inputs.len(), 3);
        aux.copy_from_slice(&[5, 6]);
        inputs.copy_from_slice(&[7, 8, 9]);
    }
    assert_eq!(cs.aux_slice(), &[5, 6]);
    assert_eq!(cs.inputs_slice(), &[1, 7, 8, 9]);
    let next = cs.alloc_strict(|| "next".to_string(), 11).unwrap();
    assert_eq!(next.get_unchecked(), Index::Aux(2));
}

#[test]
fn allocate_empty_of_nothing_changes_nothing() {
    let mut cs = fresh();
    {
        let (aux, inputs) = cs.allocate_empty(0, 0);
        assert!(aux.is_empty());
        assert!(inputs.is_empty());
    }
    assert_eq!(cs.inputs_slice(), &[1]);
    assert!(cs.aux_slice().is_empty());
}

#[test]
fn extend_appends_values() {
    let mut cs = fresh();
    cs.extend_inputs(&[2, 3]);
    cs.extend_aux(&[4, 5, 6]);
    cs.extend_aux(&[]);
    assert_eq!(cs.inputs_slice(), &[1, 2, 3]);
    assert_eq!(cs.aux_slice(), &[4, 5, 6]);
    let v = cs.alloc_input_strict(|| "v".to_string(), 9).unwrap();
    assert_eq!(v.get_unchecked(), Index::Input(3));
}

#[test]
fn enforce_leaves_values_unchanged() {
    let mut cs = fresh();
    let x = cs.alloc_strict(|| "x".to_string(), 3).unwrap();
    let one = cs.one();
    cs.enforce(
        || "x * 1 = x".to_string(),
        move |lc| lc.add_term(x, 1),
        move |lc| lc.add_term(one, 1),
        move |lc| lc.add_term(x, 1),
    );
    assert_eq!(cs.aux_slice(), &[3]);
    assert_eq!(cs.inputs_slice(), &[1]);
}

#[test]
fn capability_flags() {
    let cs = fresh();
    assert!(cs.is_witness_generator());
    assert!(!cs.is_extensible());
}

#[test]
fn linear_combination_collects_terms() {
    let lc: LinearCombination<u64> = LinearCombination::zero();
    assert_eq!(lc.len(), 0);
    let a = Variable::new_unchecked(Index::Aux(0));
    let b = Variable::new_unchecked(Index::Input(1));
    let lc = lc.add_term(a, 2).add_term(b, 3).add_term(a, 4);
    assert_eq!(lc.len(), 3);
}

#[test]
fn variables_compare_by_namespace_and_index() {
    assert_ne!(
        Variable::new_unchecked(Index::Aux(1)),
        Variable::new_unchecked(Index::Input(1))
    );
    assert_eq!(
        Variable::new_unchecked(Index::Aux(4)),
        Variable::new_unchecked(Index::Aux(4))
    );
    assert_ne!(SynthesisError::AllocationRejected, SynthesisError::Unsatisfiable);
}

#[test]
fn enforce_applies_each_transform_once() {
    let calls = Rc::new(Cell::new(0u32));
    let mut cs = fresh();
    let x = cs.alloc_strict(|| "x".to_string(), 3).unwrap();
    let (ca, cb, cc) = (calls.clone(), calls.clone(), calls.clone());
    cs.enforce(
        || "x * x = x".to_string(),
        move |lc| {
            ca.set(ca.get() + 1);
            lc.add_term(x, 1)
        },
        move |lc| {
            cb.set(cb.get() + 10);
            lc.add_term(x, 1)
        },
        move |lc| {
            cc.set(cc.get() + 100);
            lc.add_term(x, 1)
        },
    );
    assert_eq!(calls.get(), 111);
    assert_eq!(cs.aux_slice(), &[3]);
}
