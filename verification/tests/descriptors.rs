use membus::{MemoryAccess, MemoryAccessType, MemoryAccessWidth};

fn all_six() -> Vec<MemoryAccess> {
    vec![
        MemoryAccessType::Sequential + MemoryAccessWidth::MemoryAccess8,
        MemoryAccessType::NonSequential + MemoryAccessWidth::MemoryAccess8,
        MemoryAccessType::Sequential + MemoryAccessWidth::MemoryAccess16,
        MemoryAccessType::NonSequential + MemoryAccessWidth::MemoryAccess16,
        MemoryAccessType::Sequential + MemoryAccessWidth::MemoryAccess32,
        MemoryAccessType::NonSequential + MemoryAccessWidth::MemoryAccess32,
    ]
}

#[test]
fn add_pairs_type_with_width() {
    let access = MemoryAccessType::NonSequential + MemoryAccessWidth::MemoryAccess16;
    assert_eq!(access.0, MemoryAccessType::NonSequential);
    assert_eq!(access.1, MemoryAccessWidth::MemoryAccess16);
    assert_eq!(
        access,
        MemoryAccess(MemoryAccessType::NonSequential, MemoryAccessWidth::MemoryAccess16)
    );
}

#[test]
fn add_keeps_the_operands_apart() {
    let access = MemoryAccessType::Sequential + MemoryAccessWidth::MemoryAccess32;
    assert_eq!(access.0, MemoryAccessType::Sequential);
    assert_eq!(access.1, MemoryAccessWidth::MemoryAccess32);
}

#[test]
fn six_descriptors_are_pairwise_distinct() {
    let all = all_six();
    assert_eq!(all.len(), 6);
    for i in 0..all.len() {
        for j in 0..all.len() {
            if i == j {
                assert_eq!(all[i], all[j]);
            } else {
                assert_ne!(all[i], all[j]);
            }
        }
    }
}

#[test]
fn equal_fields_make_equal_descriptors() {
    let built = MemoryAccessType::Sequential + MemoryAccessWidth::MemoryAccess8;
    let literal = MemoryAccess(MemoryAccessType::Sequential, MemoryAccessWidth::MemoryAccess8);
    assert_eq!(built, literal);
    let copy = built;
    assert_eq!(copy, built);
}
