use std::any::Any;

use zero_on_free::errors::{CustomError, CustomErrorKind};

fn simulate_operation(should_fail: bool, error_type: CustomErrorKind) -> Result<(), CustomError> {
    if should_fail {
        match error_type {
            CustomErrorKind::NotFound => Err(CustomError::new(
                CustomErrorKind::NotFound,
                "The requested item was not found.",
            )),
            CustomErrorKind::PermissionDenied => Err(CustomError::new(
                CustomErrorKind::PermissionDenied,
                "Access denied to the resource.",
            )),
            _ => Err(CustomError::new(error_type, "Unknown Error")),
        }
    } else {
        Ok(())
    }
}

#[test]
fn test_errors() {
    if let Err(e) = simulate_operation(true, CustomErrorKind::NotFound) {
        assert_eq!(e.kind(), CustomErrorKind::NotFound);
        assert_eq!(e.to_string(), "NotFound: The requested item was not found.");
    }

    if let Err(e) = simulate_operation(true, CustomErrorKind::InvalidArgument) {
        assert_eq!(e.kind(), CustomErrorKind::InvalidArgument);
        assert_eq!(e.to_string(), "InvalidArgument: Unknown Error",);
    }

    assert!(simulate_operation(false, CustomErrorKind::Other).is_ok());
}

#[test]
fn downcasting() {
    let error = CustomError::new(CustomErrorKind::Other, "some unknown message");
    let error_kind = error.kind();
    let boxed_error: Box<dyn Any> = Box::new(error);
    assert_eq!(
        error_kind,
        boxed_error.downcast::<CustomError>().unwrap().kind()
    );
}

#[test]
fn every_kind_has_its_name() {
    let kinds = [
        (CustomErrorKind::NotFound, "NotFound"),
        (CustomErrorKind::PermissionDenied, "PermissionDenied"),
        (CustomErrorKind::InvalidArgument, "InvalidArgument"),
        (CustomErrorKind::InvalidData, "InvalidData"),
        (CustomErrorKind::UnexpectedEof, "UnexpectedEof"),
        (CustomErrorKind::ResourceBusy, "ResourceBusy"),
        (CustomErrorKind::TimedOut, "TimedOut"),
        (CustomErrorKind::OutOfMemory, "OutOfMemory"),
        (CustomErrorKind::Other, "Other"),
    ];
    for (kind, name) in kinds {
        assert_eq!(kind.name(), name);
        assert_eq!(format!("{:?}", kind), name);
        let error = CustomError::new(kind, "m");
        assert_eq!(error.kind(), kind);
        assert_eq!(error.to_string(), format!("{}: m", name));
    }
}

#[test]
fn the_message_is_kept_as_it_is() {
    let error = CustomError::new(CustomErrorKind::TimedOut, "gave up: after 3 tries");
    assert_eq!(error.message(), "gave up: after 3 tries");
    assert_eq!(error.to_string(), "TimedOut: gave up: after 3 tries");

    let empty = CustomError::new(CustomErrorKind::Other, "");
    assert_eq!(empty.message(), "");
    assert_eq!(empty.to_string(), "Other: ");
}
