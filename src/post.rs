use vstd::prelude::*;

use crate::error::AppError;

verus! {

/// A stored post, as the contracts speak of it.
pub struct PostView {
    pub id: int,
    pub title: Seq<char>,
    pub excerpt: Seq<char>,
    pub content: Seq<char>,
}

/// A post as the store hands it out.
#[derive(Debug)]
pub struct GetPostResponse {
    pub post_id: i32,
    pub title: String,
    pub excerpt: String,
    pub content: String,
}

impl View for GetPostResponse {
    type V = PostView;

    open spec fn view(&self) -> PostView {
        PostView {
            id: self.post_id as int,
            title: self.title@,
            excerpt: self.excerpt@,
            content: self.content@,
        }
    }
}

impl GetPostResponse {
    /// A field-by-field copy.
    pub fn duplicate(&self) -> (r: GetPostResponse)
        ensures
            r@ == self@,
    {
        GetPostResponse {
            post_id: self.post_id,
            title: self.title.clone(),
            excerpt: self.excerpt.clone(),
            content: self.content.clone(),
        }
    }
}

/// The fields of a post to be created.
#[derive(Debug)]
pub struct AddPostRequest {
    pub title: String,
    pub excerpt: String,
    pub content: String,
}

/// The id assigned to a newly created post.
#[derive(Debug, Clone, Copy, PartialEq, Eq, Structural)]
pub struct AddPostResponse {
    pub post_id: i32,
}

/// The id of a post that was removed.
#[derive(Debug, Clone, Copy, PartialEq, Eq, Structural)]
pub struct DeletePostResponse {
    pub post_id: i32,
}

/// The required fields of a post.
#[derive(Debug, Clone, Copy, PartialEq, Eq, Structural)]
pub enum PostField {
    Title,
    Excerpt,
    Content,
}

/// The first of title, excerpt and content that is empty, if any.
pub open spec fn first_empty_field(title: Seq<char>, excerpt: Seq<char>, content: Seq<char>) -> Option<PostField> {
    if title.len() == 0 {
        Some(PostField::Title)
    } else if excerpt.len() == 0 {
        Some(PostField::Excerpt)
    } else if content.len() == 0 {
        Some(PostField::Content)
    } else {
        None
    }
}

pub open spec fn empty_field_message(f: PostField) -> Seq<char> {
    match f {
        PostField::Title => "cannot have empty post title"@,
        PostField::Excerpt => "cannot have empty post excerpt"@,
        PostField::Content => "cannot have empty post content"@,
    }
}

/// Checks that title, excerpt and content are all non-empty; otherwise
/// reports the first empty one as a bad request.
pub fn validate_new_post(title: &str, excerpt: &str, content: &str) -> (r: Result<(), AppError>)
    ensures
        r is Ok <==> first_empty_field(title@, excerpt@, content@) is None,
        r matches Err(e) ==> e.status_code == crate::error::StatusCode::BadRequest
            && e.err_msg@ == empty_field_message(first_empty_field(title@, excerpt@, content@)->Some_0),
{
    if title.is_empty() {
        Err(AppError::bad_request("cannot have empty post title"))
    } else if excerpt.is_empty() {
        Err(AppError::bad_request("cannot have empty post excerpt"))
    } else if content.is_empty() {
        Err(AppError::bad_request("cannot have empty post content"))
    } else {
        Ok(())
    }
}

} // verus!
