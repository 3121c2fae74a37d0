use sbv_primitives::commands::{Commands, RunFileCommand, RunRpcCommand};
use sbv_primitives::primitives::{Address, B256};
use sbv_primitives::proof_import::{ImportAction, ProofImport};
use sbv_primitives::storage_trace::{
    collect_account_proofs, collect_storage_proofs, flatten_proofs, AccountProof, SlotProof,
    StorageProofs, StorageTrace,
};

fn drive(total: usize, outcomes: &[bool]) -> (Vec<usize>, ImportAction) {
    let mut import = ProofImport::new(total);
    let mut asked = Vec::new();
    let mut answers = outcomes.iter();
    loop {
        match import.next_action() {
            ImportAction::Import { index } => {
                asked.push(index);
                match answers.next() {
                    Some(stored) => import.record(*stored),
                    None => return (asked, ImportAction::Import { index }),
                }
            }
            done => return (asked, done),
        }
    }
}

#[test]
fn import_of_nothing_is_finished_at_once() {
    assert_eq!(ProofImport::new(0).next_action(), ImportAction::Finish);
}

#[test]
fn import_asks_for_every_fragment_in_order() {
    let (asked, end) = drive(4, &[true, true, true, true]);
    assert_eq!(asked, vec![0, 1, 2, 3]);
    assert_eq!(end, ImportAction::Finish);
}

#[test]
fn import_stops_at_the_first_refusal() {
    let (asked, end) = drive(4, &[true, false, true, true]);
    assert_eq!(asked, vec![0, 1]);
    assert_eq!(end, ImportAction::Abort { index: 1 });
    let (asked, end) = drive(3, &[false]);
    assert_eq!(asked, vec![0]);
    assert_eq!(end, ImportAction::Abort { index: 0 });
    let (asked, end) = drive(3, &[true, true, false]);
    assert_eq!(asked, vec![0, 1, 2]);
    assert_eq!(end, ImportAction::Abort { index: 2 });
}

#[test]
fn import_waits_for_the_answer_it_asked_for() {
    let (asked, end) = drive(3, &[true]);
    assert_eq!(asked, vec![0, 1]);
    assert_eq!(end, ImportAction::Import { index: 1 });
}

#[test]
fn report_that_nothing_asked_for_changes_nothing() {
    let mut done = ProofImport::new(1);
    done.record(true);
    assert_eq!(done.next_action(), ImportAction::Finish);
    let before = done;
    done.record(false);
    assert_eq!(done, before);
    assert_eq!(done.next_action(), ImportAction::Finish);

    let mut failed = ProofImport::new(2);
    failed.record(false);
    let before = failed;
    failed.record(true);
    assert_eq!(failed, before);
    assert_eq!(failed.next_action(), ImportAction::Abort { index: 0 });
}

#[test]
fn commands_hold_their_arguments() {
    let file = Commands::RunFile(RunFileCommand { path: vec![String::from("trace.json")] });
    let rpc = Commands::RunRpc(RunRpcCommand {
        url: String::from("http://localhost:8545"),
        start_block: None,
        end_block: Some(10),
    });
    assert_ne!(file, rpc);
    assert_eq!(file.clone(), file);
    match rpc {
        Commands::RunRpc(cmd) => assert_eq!(cmd.end_block, Some(10)),
        Commands::RunFile(_) => unreachable!(),
    }
}

fn sample_storage_trace() -> StorageTrace {
    StorageTrace {
        root_before: B256 { bytes: [1; 32] },
        root_after: B256 { bytes: [2; 32] },
        proofs: vec![
            AccountProof {
                address: Address { bytes: [0xa1; 20] },
                fragments: vec![vec![1], vec![2, 2]],
            },
            AccountProof { address: Address { bytes: [0xa2; 20] }, fragments: vec![] },
            AccountProof { address: Address { bytes: [0xa3; 20] }, fragments: vec![vec![3]] },
        ],
        storage_proofs: vec![
            StorageProofs {
                address: Address { bytes: [0xa1; 20] },
                slots: vec![
                    SlotProof { key: B256 { bytes: [0x11; 32] }, fragments: vec![vec![4], vec![5]] },
                    SlotProof { key: B256 { bytes: [0x12; 32] }, fragments: vec![vec![6, 6, 6]] },
                ],
            },
            StorageProofs { address: Address { bytes: [0xa2; 20] }, slots: vec![] },
            StorageProofs {
                address: Address { bytes: [0xa3; 20] },
                slots: vec![SlotProof { key: B256 { bytes: [0x13; 32] }, fragments: vec![vec![]] }],
            },
        ],
    }
}

#[test]
fn account_proofs_are_listed_account_by_account() {
    let trace = sample_storage_trace();
    let listed = collect_account_proofs(&trace);
    assert_eq!(listed.len(), 3);
    assert_eq!(listed[0], (Address { bytes: [0xa1; 20] }, &vec![vec![1u8], vec![2, 2]]));
    assert_eq!(listed[1], (Address { bytes: [0xa2; 20] }, &Vec::new()));
    assert_eq!(listed[2], (Address { bytes: [0xa3; 20] }, &vec![vec![3u8]]));
}

#[test]
fn storage_proofs_are_listed_slot_by_slot() {
    let trace = sample_storage_trace();
    let listed = collect_storage_proofs(&trace);
    assert_eq!(
        listed,
        vec![
            (Address { bytes: [0xa1; 20] }, B256 { bytes: [0x11; 32] }, &vec![vec![4u8], vec![5]]),
            (Address { bytes: [0xa1; 20] }, B256 { bytes: [0x12; 32] }, &vec![vec![6u8, 6, 6]]),
            (Address { bytes: [0xa3; 20] }, B256 { bytes: [0x13; 32] }, &vec![Vec::new()]),
        ]
    );
}

#[test]
fn flattening_keeps_every_fragment() {
    let trace = sample_storage_trace();
    let expected: Vec<Vec<u8>> =
        vec![vec![1], vec![2, 2], vec![3], vec![4], vec![5], vec![6, 6, 6], vec![]];
    assert_eq!(flatten_proofs(&trace), expected);
    let empty = StorageTrace {
        root_before: B256::zero(),
        root_after: B256::zero(),
        proofs: Vec::new(),
        storage_proofs: Vec::new(),
    };
    assert!(flatten_proofs(&empty).is_empty());
    assert!(collect_account_proofs(&empty).is_empty());
    assert!(collect_storage_proofs(&empty).is_empty());
}

#[test]
fn flattened_fragments_are_imported_one_by_one() {
    let fragments = flatten_proofs(&sample_storage_trace());
    let (asked, end) = drive(fragments.len(), &[true; 7]);
    assert_eq!(asked, vec![0, 1, 2, 3, 4, 5, 6]);
    assert_eq!(end, ImportAction::Finish);
}
