use math_render::errors::{accept_translation, RenderError};
use math_render::geometry::SizeError;

#[test]
fn translator_rejection_is_a_client_error() {
    let err = RenderError::Latex(String::from("missing brace"));
    assert_eq!(err.status(), 400);
    assert_eq!(err.message().as_str(), "LaTeX Error: missing brace");
}

#[test]
fn other_failures_are_internal_errors() {
    let vector = RenderError::Vector(String::from("bad root element"));
    assert_eq!(vector.status(), 500);
    assert_eq!(vector.message().as_str(), "Internal Error: bad root element");

    let size = RenderError::Size(SizeError::Degenerate);
    assert_eq!(size.status(), 500);
    assert_eq!(
        size.message().as_str(),
        "Internal Error: document geometry is degenerate"
    );

    let encode = RenderError::Encode(String::from("codec failed"));
    assert_eq!(encode.status(), 500);
    assert_eq!(encode.message().as_str(), "Internal Error: codec failed");
}

#[test]
fn accepted_translation_passes_through() {
    let out = accept_translation(Ok(String::from("<svg/>")));
    assert_eq!(out.unwrap().as_str(), "<svg/>");
}

#[test]
fn rejected_translation_becomes_the_latex_error() {
    let out = accept_translation(Err(String::from("\\frac{1 is unterminated")));
    let err = out.unwrap_err();
    assert!(matches!(err, RenderError::Latex(_)));
    assert_eq!(err.status(), 400);
    assert_eq!(
        err.message().as_str(),
        "LaTeX Error: \\frac{1 is unterminated"
    );
}
