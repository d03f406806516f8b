use gerber2svg::error::{BuildError, ConversionError, ExportError, Gerber2SvgError, ImportError};

#[test]
fn errors_convert_into_the_common_error() {
    assert!(matches!(
        Gerber2SvgError::from(BuildError::UnknownApertureId(3)),
        Gerber2SvgError::BuildError(BuildError::UnknownApertureId(3))
    ));
    assert!(matches!(
        Gerber2SvgError::from(ImportError::MissingUnit),
        Gerber2SvgError::ImportError(ImportError::MissingUnit)
    ));
    match Gerber2SvgError::from(ExportError::IOError("disk full".to_string())) {
        Gerber2SvgError::ExportError(ExportError::IOError(m)) => assert_eq!(m, "disk full"),
        _ => panic!("wrong variant"),
    }
    match Gerber2SvgError::from(ConversionError::PointToCoordError("too far".to_string())) {
        Gerber2SvgError::ConversionError(ConversionError::PointToCoordError(m)) => {
            assert_eq!(m, "too far")
        }
        _ => panic!("wrong variant"),
    }
}
