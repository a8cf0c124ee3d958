use ibc_relay_core::height::Height;
use ibc_relay_core::program::{
    needs_header_update, select_for_request, select_program, ProofProgram, SelectError,
};

#[test]
fn heights_order_by_revision_then_block() {
    let a = Height::new(1, 100);
    let b = Height::new(1, 101);
    let c = Height::new(2, 0);
    assert!(a.lt(&b));
    assert!(b.lt(&c));
    assert!(a.lt(&c));
    assert!(!b.lt(&a));
    assert!(!a.lt(&a));
    assert!(a.le(&a));
    assert!(c.gt(&a));
    assert!(!a.gt(&a));
    assert_eq!(a.revision(), 1);
    assert_eq!(a.block_number(), 100);
}

#[test]
fn height_order_agrees_with_derived_order() {
    let list = [
        Height::new(0, 0),
        Height::new(0, u64::MAX),
        Height::new(1, 0),
        Height::new(1, 7),
        Height::new(u64::MAX, u64::MAX),
    ];
    for x in list.iter() {
        for y in list.iter() {
            assert_eq!(x.lt(y), x < y);
            assert_eq!(x.le(y), x <= y);
            assert_eq!(x.gt(y), x > y);
        }
    }
}

#[test]
fn max_height_is_the_later() {
    let a = Height::new(3, 9);
    let b = Height::new(4, 1);
    assert_eq!(a.max(b), b);
    assert_eq!(b.max(a), b);
    assert_eq!(a.max(a), a);
}

#[test]
fn selection_table_has_four_rows() {
    assert_eq!(select_program(false, false), Err(SelectError::NothingToProve));
    assert_eq!(select_program(false, true), Ok(ProofProgram::Membership));
    assert_eq!(select_program(true, false), Ok(ProofProgram::UpdateClient));
    assert_eq!(
        select_program(true, true),
        Ok(ProofProgram::UpdateClientAndMembership)
    );
}

#[test]
fn selection_is_repeatable() {
    for u in [false, true] {
        for m in [false, true] {
            assert_eq!(select_program(u, m), select_program(u, m));
            assert_ne!(select_program(u, m), Ok(ProofProgram::Misbehaviour));
        }
    }
}

#[test]
fn update_is_needed_only_for_a_later_height() {
    let trusted = Height::new(1, 10);
    assert!(needs_header_update(&trusted, &Height::new(1, 11)));
    assert!(needs_header_update(&trusted, &Height::new(2, 0)));
    assert!(!needs_header_update(&trusted, &Height::new(1, 10)));
    assert!(!needs_header_update(&trusted, &Height::new(1, 9)));
    assert!(!needs_header_update(&trusted, &Height::new(0, 99)));
}

#[test]
fn selection_for_a_request() {
    let trusted = Height::new(1, 10);
    let same = Height::new(1, 10);
    let later = Height::new(1, 20);
    assert_eq!(
        select_for_request(&trusted, &same, 0),
        Err(SelectError::NothingToProve)
    );
    assert_eq!(
        select_for_request(&trusted, &same, 2),
        Ok(ProofProgram::Membership)
    );
    assert_eq!(
        select_for_request(&trusted, &later, 0),
        Ok(ProofProgram::UpdateClient)
    );
    assert_eq!(
        select_for_request(&trusted, &later, 1),
        Ok(ProofProgram::UpdateClientAndMembership)
    );
}

#[test]
fn programs_say_what_they_prove() {
    assert!(ProofProgram::UpdateClient.includes_update());
    assert!(!ProofProgram::UpdateClient.includes_membership());
    assert!(!ProofProgram::Membership.includes_update());
    assert!(ProofProgram::Membership.includes_membership());
    assert!(ProofProgram::UpdateClientAndMembership.includes_update());
    assert!(ProofProgram::UpdateClientAndMembership.includes_membership());
    assert!(!ProofProgram::Misbehaviour.includes_update());
    assert!(!ProofProgram::Misbehaviour.includes_membership());
}
