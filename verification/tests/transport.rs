use friday::mcp::transport::{find_io_error, is_client_disconnect_reset, IoFault};
use std::error::Error;
use std::fmt;

/// What the library looks at in an error and in what it was caused by, outermost first.
fn chain(e: &(dyn Error + 'static)) -> Vec<Option<IoFault>> {
    let mut faults = Vec::new();
    let mut current: Option<&(dyn Error + 'static)> = Some(e);
    while let Some(e) = current {
        faults.push(e.downcast_ref::<std::io::Error>().map(|io| IoFault {
            reset: io.kind() == std::io::ErrorKind::ConnectionReset,
            raw_os_error: io.raw_os_error(),
        }));
        current = e.source();
    }
    faults
}

#[derive(Debug)]
struct WrappedError {
    source: Box<dyn Error + 'static>,
}

impl fmt::Display for WrappedError {
    fn fmt(&self, f: &mut fmt::Formatter<'_>) -> fmt::Result {
        f.write_str("wrapped")
    }
}

impl Error for WrappedError {
    fn source(&self) -> Option<&(dyn Error + 'static)> {
        Some(self.source.as_ref())
    }
}

#[derive(Debug)]
struct ParseError;

impl fmt::Display for ParseError {
    fn fmt(&self, f: &mut fmt::Formatter<'_>) -> fmt::Result {
        f.write_str("h1 parse error")
    }
}

impl Error for ParseError {}

#[test]
fn test_connection_reset_kind_is_client_disconnect() {
    let e = std::io::Error::from(std::io::ErrorKind::ConnectionReset);
    assert!(is_client_disconnect_reset(&chain(&e)));
}

#[test]
fn test_windows_10054_raw_os_error_is_client_disconnect() {
    let e = std::io::Error::from_raw_os_error(10054);
    assert!(is_client_disconnect_reset(&chain(&e)));
}

#[test]
fn test_other_io_errors_are_not_client_disconnect() {
    let e = std::io::Error::new(std::io::ErrorKind::Other, "boom");
    assert!(!is_client_disconnect_reset(&chain(&e)));
}

#[test]
fn test_non_io_error_chain_is_not_client_disconnect() {
    let e = WrappedError {
        source: Box::new(std::io::Error::new(std::io::ErrorKind::Unsupported, "h1 parse")),
    };
    assert!(!is_client_disconnect_reset(&chain(&e)));
    let plain = WrappedError { source: Box::new(ParseError) };
    assert!(!is_client_disconnect_reset(&chain(&plain)));
}

#[test]
fn test_wrapped_io_error_in_error_chain_is_detected() {
    let wrapped = WrappedError { source: Box::new(std::io::Error::from_raw_os_error(10054)) };
    assert!(is_client_disconnect_reset(&chain(&wrapped)));
    let nested = WrappedError {
        source: Box::new(WrappedError {
            source: Box::new(std::io::Error::from_raw_os_error(10054)),
        }),
    };
    assert!(is_client_disconnect_reset(&chain(&nested)), "an error wrapped twice is found");
}

#[test]
fn the_outermost_io_error_decides() {
    let reset = IoFault { reset: true, raw_os_error: None };
    let other = IoFault { reset: false, raw_os_error: Some(2) };
    assert_eq!(find_io_error(&vec![None, Some(other), Some(reset)]), Some(other));
    assert!(!is_client_disconnect_reset(&vec![None, Some(other), Some(reset)]));
    assert!(is_client_disconnect_reset(&vec![None, Some(reset), Some(other)]));
    assert_eq!(find_io_error(&vec![]), None);
}
