use magic_home::codec::encode_query;
use magic_home::session::{get_state, MagicHome, MagicHomeActionError};

fn sample_reply() -> Vec<u8> {
    vec![
        0x81, 0x25, 0x23, 0x61, 0x21, 0x06, 0x38, 0x05, 0x06, 0xF9, 0x01, 0x00, 0x0F, 0x9D,
    ]
}

#[test]
fn new_session_is_disconnected() {
    let session = MagicHome::new();
    assert!(!session.is_connected());
}

#[test]
fn state_fails_before_connect() {
    let session = MagicHome::new();
    assert_eq!(
        session.state(Some(sample_reply())),
        Err(MagicHomeActionError::NotConnected)
    );
}

#[test]
fn set_color_fails_before_connect() {
    let session = MagicHome::new();
    assert_eq!(
        session.set_color([1, 2, 3]),
        Err(MagicHomeActionError::NotConnected)
    );
}

#[test]
fn power_fails_before_connect() {
    let session = MagicHome::new();
    assert_eq!(
        session.power(true),
        Err(MagicHomeActionError::NotConnected)
    );
}

#[test]
fn failed_connect_leaves_session_disconnected() {
    let mut session = MagicHome::new();
    assert_eq!(
        session.connect(None),
        Err(MagicHomeActionError::IoError)
    );
    assert!(!session.is_connected());
    assert_eq!(
        session.state(Some(sample_reply())),
        Err(MagicHomeActionError::NotConnected)
    );
    assert_eq!(
        session.set_color([0, 0, 0]),
        Err(MagicHomeActionError::NotConnected)
    );
    assert_eq!(
        session.power(false),
        Err(MagicHomeActionError::NotConnected)
    );
}

#[test]
fn short_handshake_reply_fails_connect() {
    let mut session = MagicHome::new();
    assert_eq!(
        session.connect(Some(vec![0x81, 0x25])),
        Err(MagicHomeActionError::IoError)
    );
    assert!(!session.is_connected());
}

#[test]
fn successful_connect_marks_session_connected() {
    let mut session = MagicHome::new();
    assert_eq!(session.connect(Some(sample_reply())), Ok(()));
    assert!(session.is_connected());
}

#[test]
fn connected_state_decodes_reply() {
    let mut session = MagicHome::new();
    session.connect(Some(sample_reply())).unwrap();
    let state = session.state(Some(sample_reply())).unwrap();
    assert!(state.is_enabled);
    assert_eq!(state.red, 0x38);
    assert_eq!(state.green, 0x05);
    assert_eq!(state.blue, 0x06);
}

#[test]
fn connected_state_rejects_transport_failure() {
    let mut session = MagicHome::new();
    session.connect(Some(sample_reply())).unwrap();
    assert_eq!(
        session.state(None),
        Err(MagicHomeActionError::IoError)
    );
    // The failure does not disconnect the session: the caller may retry.
    assert!(session.is_connected());
    assert!(session.state(Some(sample_reply())).is_ok());
}

#[test]
fn connected_state_rejects_short_read() {
    let mut session = MagicHome::new();
    session.connect(Some(sample_reply())).unwrap();
    assert_eq!(
        session.state(Some(vec![0x81])),
        Err(MagicHomeActionError::IoError)
    );
}

#[test]
fn connected_set_color_hands_back_frame() {
    let mut session = MagicHome::new();
    session.connect(Some(sample_reply())).unwrap();
    let frame = session.set_color([0x10, 0x20, 0x30]).unwrap();
    assert_eq!(
        frame,
        vec![0x31, 0x10, 0x20, 0x30, 0x00, 0xF0, 0x0F, 0x90]
    );
}

#[test]
fn connected_power_hands_back_frame() {
    let mut session = MagicHome::new();
    session.connect(Some(sample_reply())).unwrap();
    assert_eq!(session.power(true).unwrap(), vec![0x71, 0x23, 0x0F, 0xA3]);
    assert_eq!(session.power(false).unwrap(), vec![0x71, 0x24, 0x0F, 0xA4]);
}

#[test]
fn get_state_hands_back_full_reply() {
    let reply = sample_reply();
    assert_eq!(get_state(Some(reply.clone())), Ok(reply));
}

#[test]
fn get_state_rejects_short_or_missing_reply() {
    assert_eq!(
        get_state(Some(vec![0u8; 13])),
        Err(MagicHomeActionError::IoError)
    );
    assert_eq!(
        get_state(Some(vec![0u8; 15])),
        Err(MagicHomeActionError::IoError)
    );
    assert_eq!(get_state(None), Err(MagicHomeActionError::IoError));
}

#[test]
fn query_frame_is_what_connect_expects_written() {
    // The handshake and every state query write the same fixed query frame.
    assert_eq!(encode_query(), vec![0x81, 0x8A, 0x8B, 0x96]);
}
