use oci_client_js::client::{ClientClosed, ClientHandle};

#[test]
fn open_handle_gives_its_client() {
    let h = ClientHandle::new(7u32);
    assert_eq!(h.client(), Ok(&7));
}

#[test]
fn close_is_idempotent() {
    let mut h = ClientHandle::new("client".to_string());
    assert!(h.close());
    assert!(!h.close());
    assert!(!h.close());
}

#[test]
fn closed_handle_refuses() {
    let mut h = ClientHandle::new(1u8);
    h.close();
    assert_eq!(h.client(), Err(ClientClosed));
    assert_eq!(ClientClosed.reason(), "Client is closed");
}
