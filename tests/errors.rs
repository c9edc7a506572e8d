use cms_core::error::{classify_missing, AppError, NotFoundPolicy, StatusCode};
use cms_core::post::validate_new_post;
use cms_core::render::{finish_render, render_failure, Page, RenderStage};

#[test]
fn status_codes_are_http_numbers() {
    assert_eq!(StatusCode::BadRequest.as_u16(), 400);
    assert_eq!(StatusCode::NotFound.as_u16(), 404);
    assert_eq!(StatusCode::InternalServerError.as_u16(), 500);
}

#[test]
fn missing_post_follows_policy() {
    let e = classify_missing(AppError::bad_request("gone"), NotFoundPolicy::AsNotFound, 7);
    assert_eq!(e.status_code, StatusCode::NotFound);
    assert_eq!(e.err_msg, "Post with ID 7 not found or database error.");
    let e = classify_missing(AppError::bad_request("gone"), NotFoundPolicy::AsNotFound, -120);
    assert_eq!(e.err_msg, "Post with ID -120 not found or database error.");
    let e = classify_missing(AppError::bad_request("gone"), NotFoundPolicy::AsNotFound, 0);
    assert_eq!(e.err_msg, "Post with ID 0 not found or database error.");
    let e = classify_missing(AppError::bad_request("gone"), NotFoundPolicy::AsBadRequest, 7);
    assert_eq!(e.status_code, StatusCode::BadRequest);
    assert_eq!(e.err_msg, "gone");
    let e = classify_missing(AppError::internal("db down"), NotFoundPolicy::AsNotFound, 7);
    assert_eq!(e.status_code, StatusCode::InternalServerError);
    assert_eq!(e.err_msg, "db down");
}

#[test]
fn validation_accepts_complete_posts() {
    assert!(validate_new_post("t", "e", "c").is_ok());
    let e = validate_new_post("t", "", "").unwrap_err();
    assert_eq!(e.err_msg, "cannot have empty post excerpt");
}

#[test]
fn missing_template_is_internal_error_without_html() {
    for page in [Page::Index, Page::PostDetail] {
        let e = finish_render(page, Err(RenderStage::ReadTemplate)).unwrap_err();
        assert_eq!(e.status_code, StatusCode::InternalServerError);
        assert!(e.err_msg.starts_with("Failed to read template file"));
    }
}

#[test]
fn every_render_stage_fails_as_internal() {
    let stages = [
        (Page::Index, RenderStage::ReadTemplate, "Failed to read template file"),
        (Page::Index, RenderStage::ParseTemplate, "could not parse template"),
        (Page::Index, RenderStage::GetTemplate, "could not get template"),
        (Page::Index, RenderStage::RenderTemplate, "could not render template"),
        (Page::PostDetail, RenderStage::ReadTemplate, "Failed to read template file"),
        (Page::PostDetail, RenderStage::ParseTemplate, "Failed to add template"),
        (Page::PostDetail, RenderStage::GetTemplate, "Failed to get template"),
        (Page::PostDetail, RenderStage::RenderTemplate, "Failed to render template"),
    ];
    for (page, stage, msg) in stages {
        let e = render_failure(page, stage);
        assert_eq!(e.status_code, StatusCode::InternalServerError);
        assert_eq!(e.err_msg, msg);
    }
    assert_eq!(finish_render(Page::Index, Ok("<p>x</p>".to_string())).unwrap(), "<p>x</p>");
}
