use squant::data::{BookData, DataEnum, DataStream, MarketDataType};

fn doubled(n: usize) -> Vec<u64> {
    let stream = DataStream::new(|x: u64| x * 2);
    let items: Vec<u64> = (0..n as u64).collect();
    stream.map_all(items)
}

#[test]
fn mapper_preserves_empty_source() {
    assert_eq!(doubled(0), Vec::<u64>::new());
}

#[test]
fn mapper_preserves_single_item() {
    assert_eq!(doubled(1), vec![0]);
}

#[test]
fn mapper_preserves_order_and_count() {
    let out = doubled(100);
    assert_eq!(out.len(), 100);
    for (i, v) in out.iter().enumerate() {
        assert_eq!(*v, 2 * i as u64);
    }
}

#[test]
fn mapper_ends_when_source_ends() {
    let stream = DataStream::new(|s: &str| s.len());
    assert_eq!(stream.map_next(Some("abc")), Some(3));
    assert_eq!(stream.map_next(None), None);
    assert_eq!(stream.map_next(Some("")), Some(0));
}

#[test]
fn data_kinds() {
    let book = DataEnum::Book(BookData { bids: vec![], asks: vec![], timestamp: 1 });
    assert_eq!(book.kind(), MarketDataType::Book);
}
