use stsync_proxy::srt::conn::{LossList, Rtt};

#[test]
fn test_loss_list() {
    let now: u64 = 1_000_000_000;

    let mut list = LossList::new();
    list.push_in(1, now);
    list.push_in(2, now + 1_000_000);
    list.push_in(3, now + 2_000_000);
    assert_eq!(list.len(), 3);

    let rtt = Rtt::new();
    assert_eq!(list.clear_in(rtt, now), 0);
    assert_eq!(list.len(), 3);
    assert_eq!(list.clear_in(rtt, now + 500_000), 1);
    assert_eq!(list.len(), 2);
    assert_eq!(list.clear_in(rtt, now + 5_000_000), 2);
    assert_eq!(list.len(), 0);
}
