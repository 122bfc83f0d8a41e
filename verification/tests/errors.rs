use hyper::Error as HttpError;
use ordoo::errors::Cause;
use ordoo::errors::Error;
use rustc_serialize::json::DecoderError;
use rustc_serialize::json::EncoderError;
use rustc_serialize::json::ErrorCode;
use rustc_serialize::json::ParserError;
use std::io::Error as IoError;
use std::io::ErrorKind;

#[test]
fn decoding_round_trip() {
    let err = Error::from(DecoderError::MissingFieldError("id".to_string()));
    assert!(matches!(err, Error::Decoding(_)));
    match err.cause() {
        Some(Cause::Decoding(c)) => {
            assert_eq!(*c, DecoderError::MissingFieldError("id".to_string()));
        }
        _ => panic!("decoding cause lost"),
    }
}

#[test]
fn encoding_round_trip() {
    let err = Error::from(EncoderError::BadHashmapKey);
    assert!(matches!(err, Error::Encoding(_)));
    match err.cause() {
        Some(Cause::Encoding(c)) => {
            assert_eq!(*c, EncoderError::BadHashmapKey);
        }
        _ => panic!("encoding cause lost"),
    }
}

#[test]
fn parse_round_trip() {
    let err = Error::from(ParserError::SyntaxError(ErrorCode::InvalidSyntax, 3, 7));
    assert!(matches!(err, Error::Parse(_)));
    match err.cause() {
        Some(Cause::Parse(c)) => {
            assert_eq!(*c, ParserError::SyntaxError(ErrorCode::InvalidSyntax, 3, 7));
        }
        _ => panic!("parse cause lost"),
    }
}

#[test]
fn transport_round_trip() {
    let err = Error::from(HttpError::Method);
    assert!(matches!(err, Error::Transport(_)));
    match err.cause() {
        Some(Cause::Transport(c)) => {
            assert!(matches!(c, HttpError::Method));
        }
        _ => panic!("transport cause lost"),
    }
}

#[test]
fn io_round_trip() {
    let err = Error::from(IoError::new(ErrorKind::Other, "boom"));
    assert!(matches!(err, Error::IO(_)));
    match err.cause() {
        Some(Cause::IO(c)) => {
            assert_eq!(c.kind(), ErrorKind::Other);
            assert_eq!(c.to_string(), IoError::new(ErrorKind::Other, "boom").to_string());
        }
        _ => panic!("io cause lost"),
    }
}

#[test]
fn fault_has_no_cause_and_renders_code_only() {
    let err = Error::Fault {
        code: 404,
        message: "not found".to_string(),
    };
    assert!(err.cause().is_none());
    let shown = err.display_string();
    assert_eq!(shown, "Docker Error: 404");
    assert!(!shown.contains("not found"));
}

#[test]
fn display_delegates_to_decoding_failure() {
    let inner = DecoderError::ExpectedError("String".to_string(), "Null".to_string());
    let expected = format!("Docker Error: {}", inner);
    let err = Error::from(inner);
    assert_eq!(err.display_string(), expected);
}

#[test]
fn display_delegates_to_encoding_failure() {
    let inner = EncoderError::BadHashmapKey;
    let expected = format!("Docker Error: {}", inner);
    let err = Error::from(inner);
    assert_eq!(err.display_string(), expected);
}

#[test]
fn display_delegates_to_parse_failure() {
    let inner = ParserError::SyntaxError(ErrorCode::TrailingComma, 2, 9);
    let expected = format!("Docker Error: {}", inner);
    let err = Error::from(inner);
    assert_eq!(err.display_string(), expected);
}

#[test]
fn display_delegates_to_transport_failure() {
    let expected = format!("Docker Error: {}", HttpError::Header);
    let err = Error::from(HttpError::Header);
    assert_eq!(err.display_string(), expected);
}

#[test]
fn display_delegates_to_io_failure() {
    let expected = format!("Docker Error: {}", IoError::new(ErrorKind::Other, "boom"));
    let err = Error::from(IoError::new(ErrorKind::Other, "boom"));
    assert_eq!(err.display_string(), expected);
}

#[test]
fn description_is_fixed_for_every_variant() {
    let all = vec![
        Error::from(DecoderError::EOF),
        Error::from(EncoderError::BadHashmapKey),
        Error::from(ParserError::SyntaxError(ErrorCode::InvalidNumber, 1, 1)),
        Error::from(HttpError::TooLarge),
        Error::from(IoError::new(ErrorKind::UnexpectedEof, "closed")),
        Error::Fault {
            code: 500,
            message: "server error".to_string(),
        },
    ];
    for err in &all {
        assert_eq!(err.description(), "Ordoo Error");
    }
}

#[test]
fn fault_display_distinguishes_codes() {
    let a = Error::Fault {
        code: 404,
        message: "same message".to_string(),
    };
    let b = Error::Fault {
        code: 500,
        message: "same message".to_string(),
    };
    assert_ne!(a.display_string(), b.display_string());
    assert_eq!(a.display_string(), "Docker Error: 404");
    assert_eq!(b.display_string(), "Docker Error: 500");
}

#[test]
fn fault_display_edge_codes() {
    let low = Error::Fault {
        code: 0,
        message: "".to_string(),
    };
    let high = Error::Fault {
        code: 65535,
        message: "".to_string(),
    };
    assert_eq!(low.display_string(), "Docker Error: 0");
    assert_eq!(high.display_string(), "Docker Error: 65535");
}
