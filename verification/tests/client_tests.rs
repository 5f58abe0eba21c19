use network_grpc::chain::BlockId;
use network_grpc::client::{Client, ConnectOutcome, Error};
use network_grpc::convert::serialize_to_vec;
use network_grpc::error::{Error as DomainError, ErrorKind};

#[test]
fn connect_success_yields_client() {
    assert!(Client::connect(ConnectOutcome::Connected).is_ok());
}

#[test]
fn connect_failure_yields_connect_error() {
    let r = Client::connect(ConnectOutcome::Failed("connection refused".to_string()));
    match r {
        Err(Error::Connect(cause)) => assert_eq!(cause, "connection refused"),
        Ok(_) => panic!("expected a connect error"),
    }
}

#[test]
fn tip_call_starts_pending() {
    let mut client = Client::connect(ConnectOutcome::Connected).unwrap();
    let (_req, adapter) = client.tip();
    assert!(!adapter.is_finished());
}

#[test]
fn pull_request_keeps_id_count_and_order() {
    let mut client = Client::connect(ConnectOutcome::Connected).unwrap();
    let ids = vec![BlockId::new(vec![0xAA, 0xBB]), BlockId::new(vec![0x01])];
    let (req, adapter) = client.pull_blocks_to_tip(&ids);
    assert_eq!(req.from.len(), 2);
    assert_eq!(req.from[0], vec![0xAA, 0xBB]);
    assert_eq!(req.from[1], vec![0x01]);
    assert!(!adapter.is_finished());
}

#[test]
fn pull_request_with_no_ids_is_empty() {
    let mut client = Client::connect(ConnectOutcome::Connected).unwrap();
    let (req, _adapter) = client.pull_blocks_to_tip(&Vec::new());
    assert!(req.from.is_empty());
}

#[test]
fn embedded_id_bytes_round_trip_unchanged() {
    let id = BlockId::new(vec![0xAA, 0xBB, 0xCC]);
    let mut client = Client::connect(ConnectOutcome::Connected).unwrap();
    let (req, _adapter) = client.pull_blocks_to_tip(&vec![id.clone()]);
    let extracted = &req.from[0];
    assert_eq!(*extracted, id.bytes);
    let back = BlockId::deserialize(extracted).unwrap();
    assert_eq!(back, id);
}

#[test]
fn serialize_to_vec_maps_each_id() {
    let ids = vec![
        BlockId::new(vec![1]),
        BlockId::new(vec![2, 3]),
        BlockId::new(vec![4, 5, 6]),
    ];
    let out = serialize_to_vec(&ids);
    assert_eq!(out, vec![vec![1], vec![2, 3], vec![4, 5, 6]]);
}

#[test]
fn domain_error_carries_kind_and_cause() {
    let e = DomainError::new(ErrorKind::Rpc, "transport failure".to_string());
    assert_eq!(e.kind(), ErrorKind::Rpc);
    assert_eq!(e.cause().as_str(), "transport failure");
    let e = DomainError::new(ErrorKind::Format, "bad payload".to_string());
    assert_eq!(e.kind(), ErrorKind::Format);
}
