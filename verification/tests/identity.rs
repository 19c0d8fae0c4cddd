use mos_arch::MosBreakpointKind;
use mos_arch::MosRegId;

#[test]
fn resolve_fixed_indices() {
    assert_eq!(MosRegId::from_raw_id(0), Some((MosRegId::PC, 2)));
    assert_eq!(MosRegId::from_raw_id(1), Some((MosRegId::A, 1)));
    assert_eq!(MosRegId::from_raw_id(2), Some((MosRegId::X, 1)));
    assert_eq!(MosRegId::from_raw_id(3), Some((MosRegId::Y, 1)));
    assert_eq!(MosRegId::from_raw_id(4), Some((MosRegId::S, 1)));
    assert_eq!(MosRegId::from_raw_id(5), Some((MosRegId::C, 1)));
    assert_eq!(MosRegId::from_raw_id(6), Some((MosRegId::Z, 1)));
    assert_eq!(MosRegId::from_raw_id(7), Some((MosRegId::V, 1)));
    assert_eq!(MosRegId::from_raw_id(8), Some((MosRegId::N, 1)));
}

#[test]
fn resolve_aux_ranges() {
    assert_eq!(MosRegId::from_raw_id(9), Some((MosRegId::RC(0), 1)));
    assert_eq!(MosRegId::from_raw_id(24), Some((MosRegId::RC(15), 1)));
    assert_eq!(MosRegId::from_raw_id(40), Some((MosRegId::RC(31), 1)));
    assert_eq!(MosRegId::from_raw_id(41), Some((MosRegId::RS(0), 2)));
    assert_eq!(MosRegId::from_raw_id(50), Some((MosRegId::RS(9), 2)));
    assert_eq!(MosRegId::from_raw_id(56), Some((MosRegId::RS(15), 2)));
}

#[test]
fn resolve_out_of_range_is_absent() {
    assert_eq!(MosRegId::from_raw_id(57), None);
    assert_eq!(MosRegId::from_raw_id(1000), None);
    assert_eq!(MosRegId::from_raw_id(usize::MAX), None);
}

#[test]
fn every_breakpoint_kind_tag_resolves_to_the_single_kind() {
    assert_eq!(MosBreakpointKind::from_usize(0), Some(MosBreakpointKind::Regular));
    assert_eq!(MosBreakpointKind::from_usize(2), Some(MosBreakpointKind::Regular));
    assert_eq!(MosBreakpointKind::from_usize(usize::MAX), Some(MosBreakpointKind::Regular));
}
