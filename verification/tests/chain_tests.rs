use network_grpc::chain::{days_in_month, is_leap_year, parse_date, Block, BlockId, Header};
use network_grpc::error::ErrorKind;

#[test]
fn parse_date_valid() {
    let d = parse_date("2020-01-01").unwrap();
    assert_eq!(d.year, 2020);
    assert_eq!(d.month, 1);
    assert_eq!(d.day, 1);
}

#[test]
fn parse_date_valid_leap_day() {
    let d = parse_date("2020-02-29").unwrap();
    assert_eq!(d.year, 2020);
    assert_eq!(d.month, 2);
    assert_eq!(d.day, 29);
    let d = parse_date("2000-02-29").unwrap();
    assert_eq!(d.year, 2000);
}

#[test]
fn parse_date_rejects_nonexistent_days() {
    // Not a leap year.
    assert_eq!(parse_date("2019-02-29").unwrap_err().kind(), ErrorKind::Format);
    // Divisible by 100 but not by 400: not a leap year.
    assert_eq!(parse_date("2100-02-29").unwrap_err().kind(), ErrorKind::Format);
    // April has 30 days.
    assert_eq!(parse_date("2021-04-31").unwrap_err().kind(), ErrorKind::Format);
    // No month 13, no month 0, no day 0.
    assert_eq!(parse_date("2020-13-01").unwrap_err().kind(), ErrorKind::Format);
    assert_eq!(parse_date("2020-00-10").unwrap_err().kind(), ErrorKind::Format);
    assert_eq!(parse_date("2020-05-00").unwrap_err().kind(), ErrorKind::Format);
}

#[test]
fn parse_date_rejects_malformed_text() {
    assert_eq!(parse_date("").unwrap_err().kind(), ErrorKind::Format);
    assert_eq!(parse_date("not-a-date").unwrap_err().kind(), ErrorKind::Format);
    assert_eq!(parse_date("2020-1-1").unwrap_err().kind(), ErrorKind::Format);
    assert_eq!(parse_date("2020/01/01").unwrap_err().kind(), ErrorKind::Format);
    assert_eq!(parse_date("abcd-ef-gh").unwrap_err().kind(), ErrorKind::Format);
    assert_eq!(parse_date("2020-01-01x").unwrap_err().kind(), ErrorKind::Format);
}

#[test]
fn leap_year_rule() {
    assert!(is_leap_year(2020));
    assert!(!is_leap_year(2019));
    assert!(!is_leap_year(2100));
    assert!(is_leap_year(2000));
    assert_eq!(days_in_month(2020, 2), 29);
    assert_eq!(days_in_month(2019, 2), 28);
    assert_eq!(days_in_month(2021, 4), 30);
    assert_eq!(days_in_month(2021, 12), 31);
}

#[test]
fn id_serialize_round_trip() {
    let id = BlockId::new(vec![0xAA, 0xBB]);
    let bytes = id.serialize();
    assert_eq!(bytes, vec![0xAA, 0xBB]);
    let back = BlockId::deserialize(&bytes).unwrap();
    assert_eq!(back, id);
    assert_eq!(back.bytes, vec![0xAA, 0xBB]);
}

#[test]
fn id_deserialize_bounds() {
    assert_eq!(BlockId::deserialize(&vec![]).unwrap_err().kind(), ErrorKind::Format);
    let max = vec![7u8; 32];
    assert_eq!(BlockId::deserialize(&max).unwrap().bytes, max);
    let too_long = vec![7u8; 33];
    assert_eq!(BlockId::deserialize(&too_long).unwrap_err().kind(), ErrorKind::Format);
}

#[test]
fn block_deserialize_exact() {
    let payload = vec![2, 0xAA, 0xBB, 1, 2, 3];
    let block = Block::deserialize(&payload).unwrap();
    assert_eq!(block.id.bytes, vec![0xAA, 0xBB]);
    assert_eq!(block.body, vec![1, 2, 3]);
}

#[test]
fn block_deserialize_empty_body() {
    let payload = vec![1, 0x55];
    let block = Block::deserialize(&payload).unwrap();
    assert_eq!(block.id.bytes, vec![0x55]);
    assert_eq!(block.body, Vec::<u8>::new());
}

#[test]
fn block_deserialize_malformed() {
    assert_eq!(Block::deserialize(&vec![]).unwrap_err().kind(), ErrorKind::Format);
    assert_eq!(Block::deserialize(&vec![0]).unwrap_err().kind(), ErrorKind::Format);
    assert_eq!(Block::deserialize(&vec![5, 1, 2]).unwrap_err().kind(), ErrorKind::Format);
    assert_eq!(Block::deserialize(&vec![33]).unwrap_err().kind(), ErrorKind::Format);
}

#[test]
fn header_deserialize_exact() {
    let payload = vec![2, 0xAA, 0xBB];
    let header = Header::deserialize(&payload).unwrap();
    assert_eq!(header.id.bytes, vec![0xAA, 0xBB]);
}

#[test]
fn header_deserialize_rejects_trailing_bytes() {
    assert_eq!(Header::deserialize(&vec![1, 0xAA, 0xFF]).unwrap_err().kind(), ErrorKind::Format);
    assert_eq!(Header::deserialize(&vec![]).unwrap_err().kind(), ErrorKind::Format);
    assert_eq!(Header::deserialize(&vec![2, 0xAA]).unwrap_err().kind(), ErrorKind::Format);
}
