use onepubkey::account::{Account, Address, ProgramError};
use onepubkey::crank::{crank_pda_instruction, report, CrankReport};
use onepubkey::derive::DerivedAddress;
use onepubkey::hash::{concat_identities, crank_seed, truncate_digest};
use sha2::{Digest, Sha256};

const PROGRAM: Address = Address { bytes: [7u8; 32] };

const ZERO_DIGEST: [u8; 32] = [
    46, 169, 171, 145, 152, 209, 99, 128, 7, 64, 12, 210, 195, 190, 241, 204, 116, 91, 134, 75,
    118, 1, 26, 14, 27, 197, 33, 128, 172, 100, 82, 212,
];

const DERIVED_FROM_ZERO_DIGEST: [u8; 32] = [
    197, 120, 189, 217, 253, 218, 255, 215, 141, 202, 205, 7, 57, 48, 214, 105, 111, 135, 133, 51,
    25, 231, 243, 204, 191, 62, 85, 31, 216, 41, 164, 230,
];

const DERIVED_FROM_EMPTY_SEED: [u8; 32] = [
    163, 1, 142, 166, 38, 222, 236, 13, 130, 94, 184, 109, 33, 252, 41, 85, 157, 139, 106, 13, 14,
    168, 162, 9, 201, 242, 246, 196, 245, 98, 75, 166,
];

fn account(key: [u8; 32]) -> Account {
    Account {
        key: Address { bytes: key },
        owner: Address { bytes: [0u8; 32] },
        lamports: 1,
        data: vec![],
        is_signer: false,
        is_writable: true,
    }
}

fn accounts(claimed: [u8; 32], identities: [[u8; 32]; 3]) -> Vec<Account> {
    vec![
        account([1u8; 32]),
        account(claimed),
        account([0u8; 32]),
        account(identities[0]),
        account(identities[1]),
        account(identities[2]),
    ]
}

#[test]
fn crank_seed_of_zero_identities_is_the_digest_of_96_zero_bytes() {
    let zero = Address { bytes: [0u8; 32] };
    assert_eq!(crank_seed(&zero, &zero, &zero, 32), Ok(ZERO_DIGEST.to_vec()));
}

#[test]
fn crank_seed_of_length_zero_is_empty() {
    let zero = Address { bytes: [0u8; 32] };
    assert_eq!(crank_seed(&zero, &zero, &zero, 0), Ok(vec![]));
}

#[test]
fn crank_seed_is_a_prefix_of_the_digest() {
    let zero = Address { bytes: [0u8; 32] };
    for offset in 0..=32usize {
        assert_eq!(crank_seed(&zero, &zero, &zero, offset), Ok(ZERO_DIGEST[..offset].to_vec()));
    }
}

#[test]
fn crank_seed_rejects_a_length_beyond_the_digest() {
    let zero = Address { bytes: [0u8; 32] };
    for offset in [33usize, 34, 255, usize::MAX] {
        assert_eq!(
            crank_seed(&zero, &zero, &zero, offset),
            Err(ProgramError::InvalidInstructionData)
        );
    }
}

#[test]
fn crank_seed_hashes_the_identities_in_order() {
    let a = Address { bytes: [1u8; 32] };
    let b = Address { bytes: [2u8; 32] };
    let c = Address { bytes: [3u8; 32] };
    let expected = vec![
        138, 46, 73, 19, 86, 207, 219, 5, 161, 209, 55, 133, 224, 121, 77, 124, 209, 99, 249, 26,
        247, 154, 20, 108, 151, 107, 29, 42, 198, 67, 182, 121,
    ];
    assert_eq!(crank_seed(&a, &b, &c, 32), Ok(expected.clone()));
    assert_ne!(crank_seed(&c, &b, &a, 32), Ok(expected));

    let mut data = vec![1u8; 32];
    data.extend_from_slice(&[2u8; 32]);
    data.extend_from_slice(&[3u8; 32]);
    assert_eq!(crank_seed(&a, &b, &c, 32), Ok(Sha256::digest(&data).to_vec()));
}

#[test]
fn identities_are_concatenated_in_order() {
    let a = Address { bytes: [1u8; 32] };
    let b = Address { bytes: [2u8; 32] };
    let c = Address { bytes: [3u8; 32] };
    let out = concat_identities(&a, &b, &c);
    assert_eq!(out.len(), 96);
    assert_eq!(out[..32], [1u8; 32]);
    assert_eq!(out[32..64], [2u8; 32]);
    assert_eq!(out[64..], [3u8; 32]);
}

#[test]
fn truncation_keeps_the_first_bytes() {
    assert_eq!(truncate_digest(&ZERO_DIGEST, 0), Ok(vec![]));
    assert_eq!(truncate_digest(&ZERO_DIGEST, 3), Ok(vec![46, 169, 171]));
    assert_eq!(truncate_digest(&ZERO_DIGEST, 32), Ok(ZERO_DIGEST.to_vec()));
    assert_eq!(truncate_digest(&ZERO_DIGEST, 33), Err(ProgramError::InvalidInstructionData));
}

#[test]
fn crank_needs_six_accounts() {
    let all = accounts([2u8; 32], [[0u8; 32]; 3]);
    for count in 0..6 {
        assert_eq!(
            crank_pda_instruction(&PROGRAM, &all[..count], 4, b"seed"),
            Err(ProgramError::NotEnoughAccountKeys)
        );
    }
}

#[test]
fn crank_reports_missing_accounts_before_a_bad_length() {
    let all = accounts([2u8; 32], [[0u8; 32]; 3]);
    assert_eq!(
        crank_pda_instruction(&PROGRAM, &all[..5], 33, b"seed"),
        Err(ProgramError::NotEnoughAccountKeys)
    );
}

#[test]
fn crank_rejects_a_length_beyond_the_digest() {
    let all = accounts([2u8; 32], [[0u8; 32]; 3]);
    assert_eq!(
        crank_pda_instruction(&PROGRAM, &all, 33, b"seed"),
        Err(ProgramError::InvalidInstructionData)
    );
}

#[test]
fn crank_with_the_whole_digest_reports_the_derived_address() {
    let all = accounts([2u8; 32], [[0u8; 32]; 3]);
    let expected = CrankReport {
        program_seed: ZERO_DIGEST.to_vec(),
        passed_seed: b"seed".to_vec(),
        derived: DerivedAddress { address: Address { bytes: DERIVED_FROM_ZERO_DIGEST }, bump: 254 },
        claimed: Address { bytes: [2u8; 32] },
        target_matches: false,
    };
    assert_eq!(crank_pda_instruction(&PROGRAM, &all, 32, b"seed"), Ok(expected));
}

#[test]
fn crank_with_length_zero_derives_from_the_empty_seed() {
    let all = accounts([2u8; 32], [[0u8; 32]; 3]);
    let expected = CrankReport {
        program_seed: vec![],
        passed_seed: vec![],
        derived: DerivedAddress { address: Address { bytes: DERIVED_FROM_EMPTY_SEED }, bump: 254 },
        claimed: Address { bytes: [2u8; 32] },
        target_matches: false,
    };
    assert_eq!(crank_pda_instruction(&PROGRAM, &all, 0, &[]), Ok(expected));
}

#[test]
fn crank_tells_when_the_claimed_target_is_the_derived_one() {
    let all = accounts(DERIVED_FROM_ZERO_DIGEST, [[0u8; 32]; 3]);
    let found = crank_pda_instruction(&PROGRAM, &all, 32, b"seed").unwrap();
    assert!(found.target_matches);
    assert_eq!(found.claimed, found.derived.address);
}

#[test]
fn crank_reads_the_identities_from_the_last_three_accounts() {
    let all = accounts([2u8; 32], [[1u8; 32], [2u8; 32], [3u8; 32]]);
    let found = crank_pda_instruction(&PROGRAM, &all, 8, b"seed").unwrap();
    assert_eq!(found.program_seed, vec![138, 46, 73, 19, 86, 207, 219, 5]);
    assert_eq!(found.derived.bump, 255);
    assert_eq!(
        found.derived.address.bytes,
        [
            45, 3, 34, 1, 32, 47, 61, 153, 32, 120, 17, 209, 220, 210, 247, 242, 132, 34, 250, 41,
            70, 222, 28, 167, 254, 176, 84, 253, 88, 247, 124, 54,
        ]
    );
}

#[test]
fn report_of_an_exhausted_search_is_an_error() {
    let claimed = Address { bytes: [2u8; 32] };
    assert_eq!(report(vec![1, 2], b"seed", None, &claimed), Err(ProgramError::InvalidSeeds));
}

#[test]
fn report_keeps_what_it_is_given() {
    let claimed = Address { bytes: [2u8; 32] };
    let derived = DerivedAddress { address: Address { bytes: [3u8; 32] }, bump: 9 };
    let expected = CrankReport {
        program_seed: vec![1, 2],
        passed_seed: b"seed".to_vec(),
        derived,
        claimed,
        target_matches: false,
    };
    assert_eq!(report(vec![1, 2], b"seed", Some(derived), &claimed), Ok(expected));

    let same = DerivedAddress { address: claimed, bump: 200 };
    let found = report(vec![], &[], Some(same), &claimed).unwrap();
    assert!(found.target_matches);
}
