use esp_periph::transfer::Transfer;

#[test]
fn wait_returns_send_receive_and_handle() {
    let send: Vec<u8> = (0..32).collect();
    let receive = vec![0u8; 32];
    let handle = String::from("spi");
    let t = Transfer::start(send, receive, handle);
    let (a, b, h) = t.wait();
    assert_eq!(a, (0..32).collect::<Vec<u8>>());
    assert_eq!(b, vec![0u8; 32]);
    assert_eq!(h, "spi");
}

#[test]
fn buffers_come_back_as_the_same_allocations() {
    let send = vec![1u8, 2, 3];
    let receive = vec![0u8; 3];
    let (ps, pr) = (send.as_ptr(), receive.as_ptr());
    let (a, b, h) = Transfer::start(send, receive, 7u32).wait();
    assert_eq!(a.as_ptr(), ps);
    assert_eq!(b.as_ptr(), pr);
    assert_eq!(h, 7);
}
