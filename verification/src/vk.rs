//! The social network's response shapes and the pure logic that reads
//! them: album selection and attachment reference building. The HTTP and
//! upload plumbing lives outside the library and hands these values in.

use vstd::prelude::*;

use crate::digits::{dec_digits_i64, i64_to_dec};
use crate::errors::AppError;

verus! {

/// The envelope every API answer arrives in.
#[derive(Debug, Clone, PartialEq)]
pub struct ApiResponse<T> {
    pub response: T,
}

/// The group's photo albums.
#[derive(Debug, Clone, PartialEq)]
pub struct AlbumsResponse {
    pub count: i64,
    pub items: Vec<Album>,
}

/// One photo album.
#[derive(Debug, Clone, PartialEq)]
pub struct Album {
    pub id: i64,
    pub owner_id: i64,
    pub size: i64,
    pub title: String,
    pub feed_disabled: i64,
    pub feed_has_pinned: i64,
    pub can_upload: i64,
    pub comments_disabled: i64,
    pub created: i64,
    pub description: String,
    pub can_delete: bool,
    pub can_include_to_feed: bool,
    pub thumb_id: i64,
    pub thumb_is_last: i64,
    pub updated: i64,
    pub upload_by_admins_only: i64,
}

/// Where a photo may be uploaded.
#[derive(Debug, Clone, PartialEq)]
pub struct PhotoUploadUrlResponse {
    pub album_id: i64,
    pub upload_url: String,
    pub user_id: i64,
}

/// What an upload of a photo file comes back as.
#[derive(Debug, Clone, PartialEq)]
pub struct UploadFileResponse {
    pub server: i64,
    pub photos_list: String,
    pub aid: i64,
    pub hash: String,
    pub gid: i64,
}

/// One saved photo.
#[derive(Debug, Clone, PartialEq)]
pub struct SavePhotoResponse {
    pub album_id: i64,
    pub date: i64,
    pub id: i64,
    pub owner_id: i64,
    pub sizes: Vec<Size>,
    pub text: String,
    pub user_id: i64,
    pub web_view_token: String,
    pub has_tags: bool,
    pub orig_photo: OrigPhoto,
}

/// One rendition of a photo.
#[derive(Debug, Clone, PartialEq)]
pub struct Size {
    pub height: i64,
    pub type_field: String,
    pub width: i64,
    pub url: String,
}

/// The original upload of a photo.
#[derive(Debug, Clone, PartialEq)]
pub struct OrigPhoto {
    pub height: i64,
    pub type_field: String,
    pub url: String,
    pub width: i64,
}

/// Where a video may be uploaded.
#[derive(Debug, Clone, PartialEq)]
pub struct VideoUploadUrlResponse {
    pub access_key: String,
    pub access_by_link_key: String,
    pub description: String,
    pub owner_id: i64,
    pub title: String,
    pub generated_title: String,
    pub upload_url: String,
    pub video_id: i64,
}

/// What an upload of a video file comes back as.
#[derive(Debug, Clone, PartialEq)]
pub struct UploadedVideoResponse {
    pub video_hash: String,
    pub size: i64,
    pub direct_link: String,
    pub owner_id: i64,
    pub video_id: i64,
}

/// The attachment reference of a saved photo: `photo-{group}_{id}`.
pub open spec fn spec_photo_ref(group_id: int, photo_id: int) -> Seq<char> {
    "photo-"@ + dec_digits_i64(group_id) + "_"@ + dec_digits_i64(photo_id)
}

/// The attachment reference of a saved video: `video-{group}_{id}`.
pub open spec fn spec_video_ref(group_id: int, video_id: int) -> Seq<char> {
    "video-"@ + dec_digits_i64(group_id) + "_"@ + dec_digits_i64(video_id)
}

/// Builds the wall attachment reference of a saved photo.
pub fn photo_attachment_ref(group_id: i64, photo_id: i64) -> (r: String)
    ensures
        r@ == spec_photo_ref(group_id as int, photo_id as int),
{
    let mut s = String::from_str("photo-");
    s.append(i64_to_dec(group_id).as_str());
    s.append("_");
    s.append(i64_to_dec(photo_id).as_str());
    s
}

/// Builds the wall attachment reference of a saved video.
pub fn video_attachment_ref(group_id: i64, video_id: i64) -> (r: String)
    ensures
        r@ == spec_video_ref(group_id as int, video_id as int),
{
    let mut s = String::from_str("video-");
    s.append(i64_to_dec(group_id).as_str());
    s.append("_");
    s.append(i64_to_dec(video_id).as_str());
    s
}

/// The id of the group's first photo album, where uploads land; a group
/// without albums cannot take photo uploads.
pub fn first_album_id(albums: &AlbumsResponse) -> (r: Result<i64, AppError>)
    ensures
        r is Ok <==> albums.items@.len() >= 1,
        r matches Ok(id) ==> id == albums.items@[0].id,
        r matches Err(e) ==> e is Internal,
{
    if albums.items.len() >= 1 {
        Ok(albums.items[0].id)
    } else {
        Err(AppError::Internal)
    }
}

/// The reference of the photo the save call confirmed last; a save that
/// confirmed nothing is a failure.
pub fn last_saved_photo_ref(group_id: i64, saved: &ApiResponse<Vec<SavePhotoResponse>>) -> (r:
    Result<String, AppError>)
    ensures
        r is Ok <==> saved.response@.len() >= 1,
        r matches Ok(s) ==> s@ == spec_photo_ref(
            group_id as int,
            saved.response@[saved.response@.len() - 1].id as int,
        ),
        r matches Err(e) ==> e is Internal,
{
    let n = saved.response.len();
    if n >= 1 {
        Ok(photo_attachment_ref(group_id, saved.response[n - 1].id))
    } else {
        Err(AppError::Internal)
    }
}

/// The reference of a freshly uploaded video.
pub fn uploaded_video_ref(group_id: i64, uploaded: &UploadedVideoResponse) -> (r: String)
    ensures
        r@ == spec_video_ref(group_id as int, uploaded.video_id as int),
{
    video_attachment_ref(group_id, uploaded.video_id)
}

} // verus!
