use dual_server::accept::{on_handshake, Admission};

#[test]
fn successful_handshake_is_served() {
    assert_eq!(on_handshake(Ok(7u32)), Admission::Serve(7u32));
}

#[test]
fn failed_handshake_is_discarded_with_warning() {
    let admission: Admission<u32> = on_handshake(Err("received corrupt message".to_string()));
    assert_eq!(
        admission,
        Admission::Discard { warning: "TLS handshake error: received corrupt message".to_string() }
    );
}

#[test]
fn failed_handshake_with_empty_reason() {
    let admission: Admission<u32> = on_handshake(Err(String::new()));
    assert_eq!(admission, Admission::Discard { warning: "TLS handshake error: ".to_string() });
}

#[test]
fn connection_after_failed_handshake_is_served() {
    let outcomes: Vec<Result<u32, String>> =
        vec![Ok(1), Err("random bytes".to_string()), Ok(2), Err("eof".to_string()), Ok(3)];
    let mut served = Vec::new();
    let mut warnings = Vec::new();
    for outcome in outcomes {
        match on_handshake(outcome) {
            Admission::Serve(stream) => served.push(stream),
            Admission::Discard { warning } => warnings.push(warning),
        }
    }
    assert_eq!(served, vec![1, 2, 3]);
    assert_eq!(
        warnings,
        vec!["TLS handshake error: random bytes".to_string(), "TLS handshake error: eof".to_string()]
    );
}
