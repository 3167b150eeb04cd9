use onepubkey::account::{Address, ProgramError};
use onepubkey::derive::{find_program_address, DerivedAddress};
use solana_program::pubkey::Pubkey;

const PROGRAM: Address = Address { bytes: [7u8; 32] };

fn canonical(seed: &[u8], program: &Address) -> (Address, u8) {
    let (address, bump) = Pubkey::find_program_address(&[seed], &Pubkey::from(program.bytes));
    (Address { bytes: address.to_bytes() }, bump)
}

#[test]
fn derivation_gives_the_known_address_for_test_seed() {
    let derived = find_program_address(b"test", &PROGRAM);
    let expected = DerivedAddress {
        address: Address {
            bytes: [
                59, 46, 96, 220, 154, 144, 39, 113, 77, 237, 100, 144, 90, 84, 149, 202, 231, 57,
                133, 226, 28, 100, 195, 41, 191, 153, 215, 195, 102, 232, 102, 175,
            ],
        },
        bump: 255,
    };
    assert_eq!(derived, Ok(expected));
}

#[test]
fn derivation_searches_past_the_first_candidate() {
    let derived = find_program_address(b"seed", &PROGRAM).unwrap();
    assert_eq!(derived.bump, 248);
    assert_eq!(
        derived.address.bytes,
        [
            130, 69, 178, 71, 105, 214, 120, 46, 164, 251, 126, 106, 61, 253, 10, 222, 84, 188,
            61, 47, 121, 36, 250, 227, 120, 247, 7, 126, 171, 165, 115, 31,
        ]
    );
    assert!(!derived.address.is_on_curve());

    let derived = find_program_address(b"vault", &PROGRAM).unwrap();
    assert_eq!(derived.bump, 254);
    assert!(!derived.address.is_on_curve());
}

#[test]
fn derivation_agrees_with_the_canonical_rule() {
    let seeds: [&[u8]; 6] = [b"", b"a", b"test", b"vault", b"seed", &[0u8; 32]];
    for seed in seeds {
        let derived = find_program_address(seed, &PROGRAM).unwrap();
        assert_eq!((derived.address, derived.bump), canonical(seed, &PROGRAM));
    }
}

#[test]
fn derivation_is_deterministic() {
    let programs = [PROGRAM, Address { bytes: [0u8; 32] }, Address { bytes: [255u8; 32] }];
    let seeds: [&[u8]; 4] = [b"", b"test", b"another seed", &[9u8; 32]];
    for program in programs.iter() {
        for seed in seeds {
            assert_eq!(find_program_address(seed, program), find_program_address(seed, program));
        }
    }
}

#[test]
fn derivation_depends_on_every_seed_byte() {
    let base = find_program_address(b"test", &PROGRAM).unwrap();
    let seeds: [&[u8]; 4] = [b"tesu", b"uest", b"tEst", b"test "];
    for seed in seeds {
        let other = find_program_address(seed, &PROGRAM).unwrap();
        assert_ne!(other.address, base.address);
    }
}

#[test]
fn derivation_depends_on_the_program() {
    let first = find_program_address(b"test", &PROGRAM).unwrap();
    let second = find_program_address(b"test", &Address { bytes: [8u8; 32] }).unwrap();
    assert_ne!(first.address, second.address);
}

#[test]
fn derived_addresses_are_off_the_curve() {
    for i in 0..64u8 {
        let seed = [i, i.wrapping_mul(3), 17];
        let derived = find_program_address(&seed, &PROGRAM).unwrap();
        assert!(!derived.address.is_on_curve());
        assert!(!Pubkey::from(derived.address.bytes).is_on_curve());
    }
}

#[test]
fn curve_test_tells_points_from_other_bytes() {
    let mut base_point = [0x66u8; 32];
    base_point[0] = 0x58;
    assert!(Address { bytes: base_point }.is_on_curve());
    assert!(Address { bytes: [0u8; 32] }.is_on_curve());

    let mut two = [0u8; 32];
    two[0] = 2;
    assert!(!Address { bytes: two }.is_on_curve());
    assert!(!PROGRAM.is_on_curve());
}

#[test]
fn derivation_rejects_a_seed_longer_than_32_bytes() {
    assert_eq!(find_program_address(&[1u8; 33], &PROGRAM), Err(ProgramError::InvalidSeeds));
    assert!(find_program_address(&[1u8; 32], &PROGRAM).is_ok());
}

#[test]
fn address_comparison_looks_at_every_byte() {
    let a = Address { bytes: [5u8; 32] };
    let mut bytes = [5u8; 32];
    assert!(a.same_as(&Address { bytes }));
    bytes[31] = 6;
    assert!(!a.same_as(&Address { bytes }));
    bytes[31] = 5;
    bytes[0] = 4;
    assert!(!a.same_as(&Address { bytes }));
}
