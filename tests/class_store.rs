use block_import::class_store::{
    classes_to_store, compiled_classes_to_store, get_class_info, get_sierra_compiled, is_visible,
    ClassInfoWithBlockNumber,
    DbBlockId,
};
use block_import::felt::Felt;

#[test]
fn visibility_over_all_location_pairs() {
    assert!(is_visible(DbBlockId::Pending, DbBlockId::Pending));
    assert!(is_visible(DbBlockId::Pending, DbBlockId::BlockN(5)));
    assert!(!is_visible(DbBlockId::BlockN(5), DbBlockId::Pending));
    assert!(is_visible(DbBlockId::BlockN(5), DbBlockId::BlockN(5)));
    assert!(is_visible(DbBlockId::BlockN(5), DbBlockId::BlockN(4)));
    assert!(!is_visible(DbBlockId::BlockN(5), DbBlockId::BlockN(6)));
    assert!(is_visible(DbBlockId::BlockN(0), DbBlockId::BlockN(0)));
}

#[test]
fn pending_record_is_seen_only_by_pending_reads() {
    let pending = Some(ClassInfoWithBlockNumber { class_info: "pending", block_id: DbBlockId::Pending });
    assert_eq!(get_class_info(DbBlockId::Pending, pending, None), Some("pending"));
    assert_eq!(get_class_info(DbBlockId::BlockN(100), pending, None), None);
    // after the pending tier is cleared
    assert_eq!(get_class_info::<&str>(DbBlockId::Pending, None, None), None);
}

#[test]
fn finalized_record_respects_its_block() {
    let finalized = Some(ClassInfoWithBlockNumber { class_info: 7u32, block_id: DbBlockId::BlockN(10) });
    assert_eq!(get_class_info(DbBlockId::BlockN(9), None, finalized), None);
    assert_eq!(get_class_info(DbBlockId::BlockN(10), None, finalized), Some(7));
    assert_eq!(get_class_info(DbBlockId::BlockN(11), None, finalized), Some(7));
    assert_eq!(get_class_info(DbBlockId::Pending, None, finalized), Some(7));
    let pending = Some(ClassInfoWithBlockNumber { class_info: 8u32, block_id: DbBlockId::Pending });
    assert_eq!(get_class_info(DbBlockId::Pending, pending, finalized), Some(8));
    assert_eq!(get_class_info(DbBlockId::BlockN(11), pending, finalized), Some(7));
}

#[test]
fn known_classes_are_not_written_again() {
    assert_eq!(classes_to_store(&vec![false, true, false, true]), vec![0, 2]);
    assert_eq!(classes_to_store(&vec![true, true]), Vec::<usize>::new());
    assert_eq!(classes_to_store(&vec![]), Vec::<usize>::new());
    assert_eq!(classes_to_store(&vec![false, false, false]), vec![0, 1, 2]);
}

#[test]
fn only_classes_with_a_compiled_program_write_one() {
    let c = vec![None, Some(Felt::from_u64(3)), Some(Felt::from_u64(4)), None];
    assert_eq!(compiled_classes_to_store(&c), vec![1, 2]);
    assert_eq!(compiled_classes_to_store(&vec![]), Vec::<usize>::new());
}

#[test]
fn location_kind() {
    assert!(DbBlockId::Pending.is_pending());
    assert!(!DbBlockId::BlockN(0).is_pending());
}

#[test]
fn compiled_program_reads_pending_first() {
    assert_eq!(get_sierra_compiled(DbBlockId::Pending, Some(1u8), Some(2u8)), Some(1));
    assert_eq!(get_sierra_compiled(DbBlockId::Pending, None, Some(2u8)), Some(2));
    assert_eq!(get_sierra_compiled(DbBlockId::BlockN(3), Some(1u8), Some(2u8)), Some(2));
    assert_eq!(get_sierra_compiled::<u8>(DbBlockId::BlockN(3), Some(1u8), None), None);
}
