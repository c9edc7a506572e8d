use vstd::prelude::*;

use crate::error::{AppError, StatusCode};

verus! {

/// The pages the public site renders.
#[derive(Debug, Clone, Copy, PartialEq, Eq, Structural)]
pub enum Page {
    /// The listing of posts.
    Index,
    /// A single post.
    PostDetail,
}

/// The steps of rendering a page; each can fail on its own.
#[derive(Debug, Clone, Copy, PartialEq, Eq, Structural)]
pub enum RenderStage {
    /// Reading the template document from disk.
    ReadTemplate,
    /// Parsing and compiling the template.
    ParseTemplate,
    /// Looking the compiled template up by name.
    GetTemplate,
    /// Binding the context and producing the HTML.
    RenderTemplate,
}

/// The message reported when rendering `page` fails at `stage`.
pub open spec fn stage_message(page: Page, stage: RenderStage) -> Seq<char> {
    match (page, stage) {
        (_, RenderStage::ReadTemplate) => "Failed to read template file"@,
        (Page::Index, RenderStage::ParseTemplate) => "could not parse template"@,
        (Page::Index, RenderStage::GetTemplate) => "could not get template"@,
        (Page::Index, RenderStage::RenderTemplate) => "could not render template"@,
        (Page::PostDetail, RenderStage::ParseTemplate) => "Failed to add template"@,
        (Page::PostDetail, RenderStage::GetTemplate) => "Failed to get template"@,
        (Page::PostDetail, RenderStage::RenderTemplate) => "Failed to render template"@,
    }
}

/// The error reported when rendering `page` fails at `stage`.
pub fn render_failure(page: Page, stage: RenderStage) -> (e: AppError)
    ensures
        e.status_code == StatusCode::InternalServerError,
        e.err_msg@ == stage_message(page, stage),
{
    match (page, stage) {
        (_, RenderStage::ReadTemplate) => AppError::internal("Failed to read template file"),
        (Page::Index, RenderStage::ParseTemplate) => AppError::internal("could not parse template"),
        (Page::Index, RenderStage::GetTemplate) => AppError::internal("could not get template"),
        (Page::Index, RenderStage::RenderTemplate) => AppError::internal("could not render template"),
        (Page::PostDetail, RenderStage::ParseTemplate) => AppError::internal("Failed to add template"),
        (Page::PostDetail, RenderStage::GetTemplate) => AppError::internal("Failed to get template"),
        (Page::PostDetail, RenderStage::RenderTemplate) => AppError::internal("Failed to render template"),
    }
}

/// The result of rendering `page`: the HTML when every step succeeded,
/// otherwise an internal error naming the step that failed and no HTML at all.
pub fn finish_render(page: Page, outcome: Result<String, RenderStage>) -> (r: Result<String, AppError>)
    ensures
        outcome matches Ok(html) ==> r matches Ok(out) && out@ == html@,
        outcome matches Err(stage) ==> r matches Err(e)
            && e.status_code == StatusCode::InternalServerError
            && e.err_msg@ == stage_message(page, stage),
{
    match outcome {
        Ok(html) => Ok(html),
        Err(stage) => Err(render_failure(page, stage)),
    }
}

} // verus!
