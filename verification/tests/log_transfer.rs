use std::sync::Arc;

use atlas_logging_core::error::Error;
use atlas_logging_core::log_transfer::networking::serialize::{LogTransferMessage, NoProtocol};
use atlas_logging_core::log_transfer::networking::signature_ver::LogTransferVerificationHelper;
use atlas_logging_core::log_transfer::networking::LogTransfer;
use atlas_logging_core::log_transfer::{LTPollResult, LTResult, LTTimeoutResult};
use atlas_logging_core::ordering::{push_decimal, SeqNo};

#[test]
fn seq_no_debug_matches_derived_debug() {
    for n in [0u32, 1, 9, 10, 42, 99, 100, 1000, 65535, 123456789, u32::MAX] {
        assert_eq!(SeqNo(n).to_debug_string(), format!("{:?}", SeqNo(n)));
    }
}

#[test]
fn seq_no_debug_exact_values() {
    assert_eq!(SeqNo(0).to_debug_string(), "SeqNo(0)");
    assert_eq!(SeqNo(7).to_debug_string(), "SeqNo(7)");
    assert_eq!(SeqNo(10).to_debug_string(), "SeqNo(10)");
    assert_eq!(SeqNo(u32::MAX).to_debug_string(), "SeqNo(4294967295)");
}

#[test]
fn push_decimal_appends() {
    let mut s = String::from("n=");
    push_decimal(&mut s, 305);
    assert_eq!(s, "n=305");
    let mut z = String::new();
    push_decimal(&mut z, 0);
    assert_eq!(z, "0");
}

#[test]
fn lt_result_debug_of_each_variant() {
    assert_eq!(LTResult::<u8>::RunLTP.to_debug_string(), "RunLTP");
    assert_eq!(LTResult::<u8>::NotNeeded.to_debug_string(), "NotNeeded");
    assert_eq!(LTResult::<u8>::Running.to_debug_string(), "Running");
    assert_eq!(LTResult::<u8>::Ignored.to_debug_string(), "Ignored Message");
    assert_eq!(
        LTResult::<u8>::InstallSeq(SeqNo(12)).to_debug_string(),
        "LTPInstallSeq(SeqNo(12))"
    );
    assert_eq!(
        LTResult::LTPFinished(SeqNo(3), SeqNo(250), vec![1u8, 2, 3]).to_debug_string(),
        "LTPFinished(SeqNo(3), SeqNo(250))"
    );
}

#[test]
fn lt_finished_debug_omits_decisions() {
    let empty: LTResult<u64> = LTResult::LTPFinished(SeqNo(0), SeqNo(0), vec![]);
    let full: LTResult<u64> = LTResult::LTPFinished(SeqNo(0), SeqNo(0), vec![7, 8, 9]);
    assert_eq!(empty.to_debug_string(), full.to_debug_string());
    assert_eq!(empty.to_debug_string(), "LTPFinished(SeqNo(0), SeqNo(0))");
}

#[test]
fn poll_and_timeout_results_hold_their_values() {
    let exec: LTPollResult<&str, u8> = LTPollResult::Exec("message");
    assert!(matches!(exec, LTPollResult::Exec("message")));
    let nested: LTPollResult<(), u8> = LTPollResult::LTResult(LTResult::InstallSeq(SeqNo(5)));
    match nested {
        LTPollResult::LTResult(r) => assert_eq!(r.to_debug_string(), "LTPInstallSeq(SeqNo(5))"),
        _ => panic!("expected a log transfer result"),
    }
    assert!(matches!(LTTimeoutResult::RunLTP, LTTimeoutResult::RunLTP));
    assert!(!matches!(LTTimeoutResult::NotNeeded, LTTimeoutResult::RunLTP));
}

#[test]
fn log_transfer_round_trip() {
    let message = LogTransfer::new(vec![1u8, 2, 3]);
    assert_eq!(message.payload(), &vec![1u8, 2, 3]);
    assert_eq!(message.len(), 3);
    assert_eq!(*message, vec![1u8, 2, 3]);
    let copy = message.clone();
    assert_eq!(copy.into_inner(), vec![1u8, 2, 3]);
    assert_eq!(message.into_inner(), vec![1u8, 2, 3]);
}

#[test]
fn log_transfer_payload_of_new_is_payload() {
    let text = String::from("snapshot");
    let message = LogTransfer::new(text.clone());
    assert_eq!(message.payload(), &text);
    assert_eq!(&*message, &text);
    let rewrapped = LogTransfer::new(message.into_inner());
    assert_eq!(rewrapped.into_inner(), text);
}

struct AcceptAll;

impl LogTransferVerificationHelper<u8, u8, ()> for AcceptAll {}

#[test]
fn no_protocol_accepts_every_message() {
    let network = Arc::new(());
    let res: Result<(), Error> =
        <NoProtocol as LogTransferMessage<u8, u8>>::verify_log_message::<(), AcceptAll, u32>(
            &network, &7u32, &(),
        );
    assert!(res.is_ok());
}
