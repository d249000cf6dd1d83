use socks_tunnel::error::TunnelError;

#[test]
fn every_failure_has_its_own_description() {
    assert_eq!(TunnelError::MalformedRequest.describe(), "malformed request");
    assert_eq!(TunnelError::UnsupportedAddressKind.describe(), "unsupported address kind");
    assert_eq!(TunnelError::UnsupportedCommand.describe(), "unsupported command");
    assert_eq!(TunnelError::DialFailure.describe(), "dial failure");
    assert_eq!(TunnelError::TlsHandshakeError.describe(), "TLS handshake error");
    assert_eq!(TunnelError::IoError.describe(), "I/O error");
}
