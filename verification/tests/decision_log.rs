use atlas_logging_core::decision_log::serialize::{OrderProtocolLog, OrderProtocolLogPart};
use atlas_logging_core::ordering::{NodeId, Orderable, SeqNo};

struct Log {
    decisions: Vec<u32>,
}

impl Orderable for Log {
    fn sequence_number(&self) -> SeqNo {
        SeqNo(*self.decisions.last().unwrap_or(&0))
    }
}

impl OrderProtocolLog for Log {
    fn first_seq(&self) -> Option<SeqNo> {
        self.decisions.first().map(|s| SeqNo(*s))
    }
}

impl OrderProtocolLogPart for Log {
    fn first_seq(&self) -> Option<SeqNo> {
        self.decisions.first().map(|s| SeqNo(*s))
    }
}

#[test]
fn order_protocol_log_reports_its_bounds() {
    let log = Log { decisions: vec![4, 5, 6] };
    assert_eq!(OrderProtocolLog::first_seq(&log), Some(SeqNo(4)));
    assert_eq!(OrderProtocolLogPart::first_seq(&log), Some(SeqNo(4)));
    assert_eq!(log.sequence_number(), SeqNo(6));
    let empty = Log { decisions: vec![] };
    assert_eq!(OrderProtocolLog::first_seq(&empty), None);
}

#[test]
fn seq_no_and_node_id_order_by_value() {
    assert!(SeqNo(1) < SeqNo(2));
    assert_eq!(SeqNo(3), SeqNo(3));
    assert!(NodeId(0) < NodeId(10));
}
