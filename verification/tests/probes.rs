use bgharness::fanout::{
    echo_pair_command, echo_single_command, worker_commands, FANOUT_CHILDREN, FANOUT_WORKERS,
};
use bgharness::fs_probe::{
    check_missing_parent, check_round_trip, test_dir_path, test_file_path, test_payload,
    FsErrorKind,
};
use bgharness::tcp_probe::{tcp_endpoint, tcp_payload};
use bgharness::tls::{
    judge_tls_observations, tls_model_observations, TlsCell, TlsObservations, TLS_DATA_INITIAL,
};

#[test]
fn missing_parent_expected_error_passes() {
    assert_eq!(check_missing_parent(Some(FsErrorKind::NotFound)), Ok(()));
}

#[test]
fn missing_parent_unexpected_success_fails() {
    let r = check_missing_parent(None);
    assert_eq!(
        r,
        Err(String::from("Incorrect open error: None, should be NotFound"))
    );
}

#[test]
fn missing_parent_wrong_error_fails() {
    let r = check_missing_parent(Some(FsErrorKind::Other));
    assert_eq!(
        r,
        Err(String::from("Incorrect open error: Some(Other), should be NotFound"))
    );
}

#[test]
fn fs_probe_paths() {
    assert_eq!(test_dir_path(), "benos_test_dir");
    assert_eq!(test_file_path(), "benos_test_dir/bgtest_file");
}

#[test]
fn fs_probe_payload_bytes() {
    assert_eq!(test_payload(), b"BenGreen test data".to_vec());
}

#[test]
fn round_trip_of_written_bytes_passes() {
    let path = test_file_path();
    let payload = test_payload();
    assert_eq!(check_round_trip(&path, &payload, &payload.clone()), Ok(()));
}

#[test]
fn round_trip_of_arbitrary_payloads_passes() {
    let path = String::from("p");
    for payload in [vec![0u8], vec![255u8, 0, 17], (0u8..=255).collect::<Vec<u8>>()] {
        assert_eq!(check_round_trip(&path, &payload, &payload.clone()), Ok(()));
    }
}

#[test]
fn round_trip_mismatch_fails_with_path_in_message() {
    let path = test_file_path();
    let written = test_payload();
    let mut read_back = written.clone();
    read_back[0] ^= 1;
    assert_eq!(
        check_round_trip(&path, &written, &read_back),
        Err(String::from(
            "BenGreen: benos_test_dir/bgtest_file did not contain the correct data"
        ))
    );
}

#[test]
fn round_trip_length_mismatch_fails() {
    let path = String::from("p");
    let written = vec![1u8, 2, 3];
    let read_back = vec![1u8, 2];
    assert!(check_round_trip(&path, &written, &read_back).is_err());
    assert!(check_round_trip(&path, &read_back, &written).is_err());
}

#[test]
fn tls_cell_fresh_view_ignores_other_threads_mutations() {
    let mut zero = TlsCell::declare(0);
    zero.increment();
    zero.increment();
    assert_eq!(zero.get(), 2);
    let worker = zero.fresh_view();
    assert_eq!(worker.get(), 0);
    let mut data = TlsCell::declare(TLS_DATA_INITIAL);
    data.decrement();
    assert_eq!(data.fresh_view().get(), TLS_DATA_INITIAL);
}

#[test]
fn tls_model_run_satisfies_every_expectation() {
    let obs = tls_model_observations();
    assert_eq!(judge_tls_observations(&obs), Ok(()));
    assert_eq!(obs.zero_before, 0);
    assert_eq!(obs.zero_after_increment, 1);
    assert_eq!(obs.data_before, TLS_DATA_INITIAL);
    assert_eq!(obs.data_after_decrement, TLS_DATA_INITIAL - 1);
}

#[test]
fn tls_judge_reports_first_violation() {
    let good = tls_model_observations();
    let bad_zero = TlsObservations { zero_before: 5, ..good };
    assert_eq!(
        judge_tls_observations(&bad_zero),
        Err(String::from("TLS zero cell did not start at 0"))
    );
    let bad_inc = TlsObservations { zero_after_increment: 0, ..good };
    assert_eq!(
        judge_tls_observations(&bad_inc),
        Err(String::from("TLS zero cell increment did not round-trip"))
    );
    let bad_data = TlsObservations { data_before: 0, ..good };
    assert_eq!(
        judge_tls_observations(&bad_data),
        Err(String::from("TLS data cell did not start at its declared value"))
    );
    let bad_dec = TlsObservations { data_after_decrement: 0, ..good };
    assert_eq!(
        judge_tls_observations(&bad_dec),
        Err(String::from("TLS data cell decrement did not round-trip"))
    );
}

#[test]
fn tcp_probe_parameters() {
    assert_eq!(tcp_endpoint(), "mirror.benchx.io:80");
    assert_eq!(tcp_payload(), b"TEST".to_vec());
}

#[test]
fn fanout_command_format() {
    assert_eq!(echo_pair_command(3, 7), "echo 3:7");
    assert_eq!(echo_pair_command(0, 0), "echo 0:0");
    assert_eq!(echo_single_command(9), "echo 9");
}

#[test]
fn fanout_worker_commands_cover_every_child() {
    assert_eq!(FANOUT_WORKERS, 10);
    assert_eq!(FANOUT_CHILDREN, 10);
    let cmds = worker_commands(4, FANOUT_CHILDREN);
    assert_eq!(cmds.len(), 10);
    for (j, cmd) in cmds.iter().enumerate() {
        assert_eq!(cmd, &format!("echo 4:{}", j));
    }
}
