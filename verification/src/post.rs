//! The post entity and its lifecycle status machine.

use vstd::prelude::*;

use crate::errors::AppError;
use crate::text::clone_opt_string;
use crate::text::str_eq;

verus! {

/// Lifecycle status of a post.
///
/// `Abandoned` is a defined terminal state with no transition into it; the
/// listing filters already accept it as a value, so it stays declared.
#[derive(Debug, Clone, Copy, PartialEq, Eq, Structural)]
pub enum Status {
    Draft,
    Pending,
    Published,
    Abandoned,
}

impl Default for Status {
    /// A fresh post starts as a draft.
    fn default() -> (r: Self)
        ensures
            r is Draft,
    {
        Status::Draft
    }
}

impl Status {
    /// Numeric code of the status, as carried on the wire.
    pub fn as_i32(&self) -> (r: i32)
        ensures
            r == status_code(*self),
    {
        match self {
            Status::Draft => 0,
            Status::Pending => 1,
            Status::Published => 2,
            Status::Abandoned => 3,
        }
    }

    /// Decodes a numeric status code; every value outside the four codes is
    /// rejected.
    pub fn from_i32(value: i32) -> (r: Result<Self, AppError>)
        ensures
            r is Ok <==> 0 <= value <= 3,
            r matches Ok(s) ==> status_code(s) == value,
            r matches Err(e) ==> e is InvalidArgument,
    {
        match value {
            0 => Ok(Status::Draft),
            1 => Ok(Status::Pending),
            2 => Ok(Status::Published),
            3 => Ok(Status::Abandoned),
            _ => Err(AppError::InvalidArgument),
        }
    }

    /// The status name, used in listings and in callback payloads.
    pub fn name(&self) -> (r: &'static str)
        ensures
            r@ == status_name(*self),
    {
        match self {
            Status::Draft => "Draft",
            Status::Pending => "Pending",
            Status::Published => "Published",
            Status::Abandoned => "Abandoned",
        }
    }

    /// Reads a status back from its name; anything unrecognized falls back
    /// to `Draft`, mirroring the forgiving decoding of stored filters.
    pub fn from_name(value: &str) -> (r: Self)
        ensures
            r == status_of_name(value@),
    {
        if str_eq(value, "Pending") {
            Status::Pending
        } else if str_eq(value, "Published") {
            Status::Published
        } else if str_eq(value, "Abandoned") {
            Status::Abandoned
        } else {
            Status::Draft
        }
    }
}

/// Numeric code of each status.
pub open spec fn status_code(s: Status) -> i32 {
    match s {
        Status::Draft => 0,
        Status::Pending => 1,
        Status::Published => 2,
        Status::Abandoned => 3,
    }
}

/// Name of each status.
pub open spec fn status_name(s: Status) -> Seq<char> {
    match s {
        Status::Draft => "Draft"@,
        Status::Pending => "Pending"@,
        Status::Published => "Published"@,
        Status::Abandoned => "Abandoned"@,
    }
}

/// The status whose name matches, with `Draft` for anything else.
pub open spec fn status_of_name(v: Seq<char>) -> Status {
    if v == status_name(Status::Pending) {
        Status::Pending
    } else if v == status_name(Status::Published) {
        Status::Published
    } else if v == status_name(Status::Abandoned) {
        Status::Abandoned
    } else {
        Status::Draft
    }
}

/// A title holds between 1 and 255 characters.
pub open spec fn valid_title(t: Seq<char>) -> bool {
    1 <= t.len() <= 255
}

/// A content body holds between 1 and 4096 characters.
pub open spec fn valid_content(c: Seq<char>) -> bool {
    1 <= c.len() <= 4096
}

/// The post after a publish-now transition: status `Published`, the
/// publish instant set to now, everything else untouched.
pub open spec fn spec_publish_now(p: Post, now: i64) -> Post {
    Post { status: Status::Published, publish_datetime: Some(now), ..p }
}

/// The post after scheduling: status `Pending`, the publish instant set to
/// the given date, everything else untouched.
pub open spec fn spec_set_publish_date(p: Post, date: i64) -> Post {
    Post { status: Status::Pending, publish_datetime: Some(date), ..p }
}

/// A unit of content with lifecycle status, owned by one author and
/// optionally scheduled for multi-channel delivery.
///
/// Media references are per-channel: one optional photo and one optional
/// video reference for the chat channel and for the social network each.
#[derive(Debug, PartialEq)]
pub struct Post {
    pub id: u128,
    pub title: String,
    pub content: String,
    pub tg_photo_file_id: Option<String>,
    pub vk_photo_file_id: Option<String>,
    pub tg_video_file_id: Option<String>,
    pub vk_video_file_id: Option<String>,
    pub status: Status,
    pub created_at: i64,
    pub publish_datetime: Option<i64>,
    pub author_id: u128,
}

impl Clone for Post {
    /// A copy of the post, equal to the original field by field.
    fn clone(&self) -> (res: Self)
        ensures
            res == *self,
    {
        Post {
            id: self.id,
            title: self.title.clone(),
            content: self.content.clone(),
            tg_photo_file_id: clone_opt_string(&self.tg_photo_file_id),
            vk_photo_file_id: clone_opt_string(&self.vk_photo_file_id),
            tg_video_file_id: clone_opt_string(&self.tg_video_file_id),
            vk_video_file_id: clone_opt_string(&self.vk_video_file_id),
            status: self.status,
            created_at: self.created_at,
            publish_datetime: self.publish_datetime,
            author_id: self.author_id,
        }
    }
}

impl Post {
    /// Structural invariant: bounded non-empty text, and a scheduled or
    /// published post always carries its publish instant.
    pub open spec fn wf(self) -> bool {
        &&& valid_title(self.title@)
        &&& valid_content(self.content@)
        &&& self.status is Pending ==> self.publish_datetime is Some
        &&& self.status is Published ==> self.publish_datetime is Some
    }

    /// Starts assembling a post.
    pub fn builder() -> (r: PostBuilder)
        ensures
            r == PostBuilder::empty_spec(),
    {
        PostBuilder {
            id: None,
            title: None,
            content: None,
            tg_photo_file_id: None,
            vk_photo_file_id: None,
            tg_video_file_id: None,
            vk_video_file_id: None,
            status: None,
            created_at: None,
            publish_datetime: None,
            author_id: None,
        }
    }

    /// Marks the post published right now, whatever its prior status.
    pub fn publish_now(&mut self, now: i64)
        ensures
            *final(self) == spec_publish_now(*old(self), now),
            old(self).wf() ==> final(self).wf(),
    {
        self.status = Status::Published;
        self.publish_datetime = Some(now);
    }

    /// Schedules the post for the given instant, whatever its prior status.
    pub fn set_publish_date(&mut self, date: i64)
        ensures
            *final(self) == spec_set_publish_date(*old(self), date),
            old(self).wf() ==> final(self).wf(),
    {
        self.status = Status::Pending;
        self.publish_datetime = Some(date);
    }
}

/// Field-by-field assembly of a [`Post`], validated before it is built.
#[derive(Debug)]
pub struct PostBuilder {
    pub id: Option<u128>,
    pub title: Option<String>,
    pub content: Option<String>,
    pub tg_photo_file_id: Option<String>,
    pub vk_photo_file_id: Option<String>,
    pub tg_video_file_id: Option<String>,
    pub vk_video_file_id: Option<String>,
    pub status: Option<Status>,
    pub created_at: Option<i64>,
    pub publish_datetime: Option<i64>,
    pub author_id: Option<u128>,
}

impl PostBuilder {
    /// The builder with nothing set yet.
    pub open spec fn empty_spec() -> PostBuilder {
        PostBuilder {
            id: None,
            title: None,
            content: None,
            tg_photo_file_id: None,
            vk_photo_file_id: None,
            tg_video_file_id: None,
            vk_video_file_id: None,
            status: None,
            created_at: None,
            publish_datetime: None,
            author_id: None,
        }
    }

    pub fn id(self, id: u128) -> (r: Self)
        ensures
            r == (Self { id: Some(id), ..self }),
    {
        Self { id: Some(id), ..self }
    }

    pub fn title(self, title: String) -> (r: Self)
        ensures
            r == (Self { title: Some(title), ..self }),
    {
        Self { title: Some(title), ..self }
    }

    pub fn content(self, content: String) -> (r: Self)
        ensures
            r == (Self { content: Some(content), ..self }),
    {
        Self { content: Some(content), ..self }
    }

    pub fn tg_photo_file_id(self, v: Option<String>) -> (r: Self)
        ensures
            r == (Self { tg_photo_file_id: v, ..self }),
    {
        Self { tg_photo_file_id: v, ..self }
    }

    pub fn vk_photo_file_id(self, v: Option<String>) -> (r: Self)
        ensures
            r == (Self { vk_photo_file_id: v, ..self }),
    {
        Self { vk_photo_file_id: v, ..self }
    }

    pub fn tg_video_file_id(self, v: Option<String>) -> (r: Self)
        ensures
            r == (Self { tg_video_file_id: v, ..self }),
    {
        Self { tg_video_file_id: v, ..self }
    }

    pub fn vk_video_file_id(self, v: Option<String>) -> (r: Self)
        ensures
            r == (Self { vk_video_file_id: v, ..self }),
    {
        Self { vk_video_file_id: v, ..self }
    }

    pub fn status(self, status: Status) -> (r: Self)
        ensures
            r == (Self { status: Some(status), ..self }),
    {
        Self { status: Some(status), ..self }
    }

    pub fn created_at(self, at: i64) -> (r: Self)
        ensures
            r == (Self { created_at: Some(at), ..self }),
    {
        Self { created_at: Some(at), ..self }
    }

    pub fn publish_datetime(self, v: Option<i64>) -> (r: Self)
        ensures
            r == (Self { publish_datetime: v, ..self }),
    {
        Self { publish_datetime: v, ..self }
    }

    pub fn author_id(self, author_id: u128) -> (r: Self)
        ensures
            r == (Self { author_id: Some(author_id), ..self }),
    {
        Self { author_id: Some(author_id), ..self }
    }

    /// Whether every field that has been set is admissible.
    pub open spec fn fields_valid(self) -> bool {
        &&& self.title matches Some(t) ==> valid_title(t@)
        &&& self.content matches Some(c) ==> valid_content(c@)
    }

    /// Checks the set fields against the length bounds; fields not yet set
    /// are not faulted.
    pub fn validate(&self) -> (r: Result<(), AppError>)
        ensures
            r is Ok <==> self.fields_valid(),
            r matches Err(e) ==> e is InvalidArgument,
    {
        if let Some(title) = self.title.as_ref() {
            let n = title.as_str().unicode_len();
            if n < 1 || n > 255 {
                return Err(AppError::InvalidArgument);
            }
        }
        if let Some(content) = self.content.as_ref() {
            let n = content.as_str().unicode_len();
            if n < 1 || n > 4096 {
                return Err(AppError::InvalidArgument);
            }
        }
        Ok(())
    }

    /// Builds the post.
    ///
    /// Succeeds exactly when id, title, content and author are set, the text
    /// bounds hold, and a `Pending` or `Published` status comes with a
    /// publish instant. Status defaults to `Draft` and the creation instant
    /// to 0 when unset.
    pub fn build(self) -> (r: Result<Post, AppError>)
        ensures
            r is Ok <==> {
                &&& self.id is Some
                &&& self.title is Some
                &&& self.content is Some
                &&& self.author_id is Some
                &&& self.fields_valid()
                &&& (self.status matches Some(s) && (s is Pending || s is Published))
                    ==> self.publish_datetime is Some
            },
            r matches Ok(p) ==> {
                &&& Some(p.id) == self.id
                &&& Some(p.title) == self.title
                &&& Some(p.content) == self.content
                &&& p.tg_photo_file_id == self.tg_photo_file_id
                &&& p.vk_photo_file_id == self.vk_photo_file_id
                &&& p.tg_video_file_id == self.tg_video_file_id
                &&& p.vk_video_file_id == self.vk_video_file_id
                &&& p.status == self.status.unwrap_or(Status::Draft)
                &&& p.created_at == self.created_at.unwrap_or(0)
                &&& p.publish_datetime == self.publish_datetime
                &&& Some(p.author_id) == self.author_id
                &&& p.wf()
            },
            r matches Err(e) ==> e is InvalidArgument,
    {
        self.validate()?;
        let status = match self.status {
            Some(s) => s,
            None => Status::Draft,
        };
        match (self.id, self.title, self.content, self.author_id) {
            (Some(id), Some(title), Some(content), Some(author_id)) => {
                match status {
                    Status::Pending | Status::Published => {
                        if self.publish_datetime.is_none() {
                            return Err(AppError::InvalidArgument);
                        }
                    },
                    _ => {},
                }
                Ok(Post {
                    id,
                    title,
                    content,
                    tg_photo_file_id: self.tg_photo_file_id,
                    vk_photo_file_id: self.vk_photo_file_id,
                    tg_video_file_id: self.tg_video_file_id,
                    vk_video_file_id: self.vk_video_file_id,
                    status,
                    created_at: self.created_at.unwrap_or(0),
                    publish_datetime: self.publish_datetime,
                    author_id,
                })
            },
            _ => Err(AppError::InvalidArgument),
        }
    }
}

/// One page of a post listing, with the paging totals.
#[derive(Debug, PartialEq)]
pub struct ListPostsResult {
    pub posts: Vec<Post>,
    pub total_count: u32,
    pub current_page: u32,
    pub total_pages: u32,
}

} // verus!
