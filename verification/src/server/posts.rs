//! The post-facing backend operations: creation, lookup, listing, update,
//! deletion and the two publish transitions.

use vstd::prelude::*;

use crate::errors::AppError;
use crate::ids::fresh_id;
use crate::pagination::{spec_page_items, spec_total_pages, valid_page_params};
use crate::post::{
    spec_publish_now, spec_set_publish_date, valid_content, valid_title, ListPostsResult, Post,
    Status,
};
use crate::storage::posts_storage::{contains_post_id, filtered_posts, post_idx_of};
use crate::storage::users_storage::{contains_telegram_id, user_idx_of_telegram};
use crate::storage::Storage;

verus! {

/// The record a fresh creation writes: the given content and media
/// references, status `Draft`, created at the given instant.
pub open spec fn new_post_record(
    id: u128,
    title: String,
    content: String,
    tg_photo_file_id: Option<String>,
    vk_photo_file_id: Option<String>,
    tg_video_file_id: Option<String>,
    vk_video_file_id: Option<String>,
    publish_datetime: Option<i64>,
    author_id: u128,
    now: i64,
) -> Post {
    Post {
        id,
        title,
        content,
        tg_photo_file_id,
        vk_photo_file_id,
        tg_video_file_id,
        vk_video_file_id,
        status: Status::Draft,
        created_at: now,
        publish_datetime,
        author_id,
    }
}

/// The backend service over the post collection.
#[derive(Debug)]
pub struct AppPostService {
    pub db: Storage,
}

impl AppPostService {
    pub fn new(db: Storage) -> (r: Self)
        ensures
            r.db == db,
    {
        AppPostService { db }
    }

    /// Creates a draft under a caller-chosen id for the author with this
    /// chat identifier.
    ///
    /// Fails with `NotFound` for an unknown author, `InvalidArgument` for
    /// text outside the length bounds, and `Internal` for an id already
    /// taken; nothing is written on any failure.
    pub fn create_post_with_id(
        &mut self,
        id: u128,
        author_tg_id: i64,
        title: String,
        content: String,
        tg_photo_file_id: Option<String>,
        vk_photo_file_id: Option<String>,
        tg_video_file_id: Option<String>,
        vk_video_file_id: Option<String>,
        publish_datetime: Option<i64>,
        now: i64,
    ) -> (r: Result<Post, AppError>)
        requires
            old(self).db.wf(),
            old(self).db.posts_storage@.len() < 0xffff_ffff,
        ensures
            final(self).db.wf(),
            final(self).db.users_storage == old(self).db.users_storage,
            r is Ok <==> contains_telegram_id(old(self).db.users_storage@, author_tg_id)
                && valid_title(title@) && valid_content(content@) && !contains_post_id(
                old(self).db.posts_storage@,
                id,
            ),
            r is Err ==> final(self).db.posts_storage@ == old(self).db.posts_storage@,
            r matches Err(e) ==> ({
                let users = old(self).db.users_storage@;
                &&& e is NotFound <==> !contains_telegram_id(users, author_tg_id)
                &&& e is InvalidArgument <==> contains_telegram_id(users, author_tg_id) && !(
                valid_title(title@) && valid_content(content@))
                &&& e is NotFound || e is InvalidArgument || e is Internal
            }),
            r matches Ok(p) ==> ({
                let users = old(self).db.users_storage@;
                let author = users[user_idx_of_telegram(users, author_tg_id)];
                &&& p == new_post_record(
                    id,
                    title,
                    content,
                    tg_photo_file_id,
                    vk_photo_file_id,
                    tg_video_file_id,
                    vk_video_file_id,
                    publish_datetime,
                    author.id,
                    now,
                )
                &&& final(self).db.posts_storage@ == old(self).db.posts_storage@.push(p)
            }),
    {
        let author = match self.db.users_storage.get(author_tg_id) {
            Some(u) => u,
            None => {
                return Err(AppError::NotFound);
            },
        };
        proof {
            let users = self.db.users_storage@;
            assert(users.contains(author));
            let j = choose|j: int| 0 <= j < users.len() && users[j] == author;
            let k = user_idx_of_telegram(users, author_tg_id);
            assert(users[k].telegram_id == author_tg_id);
            assert(k == j);
        }
        let built = Post::builder()
            .id(id)
            .title(title)
            .content(content)
            .tg_photo_file_id(tg_photo_file_id)
            .vk_photo_file_id(vk_photo_file_id)
            .tg_video_file_id(tg_video_file_id)
            .vk_video_file_id(vk_video_file_id)
            .publish_datetime(publish_datetime)
            .created_at(now)
            .author_id(author.id)
            .build();
        let post = match built {
            Ok(p) => p,
            Err(e) => {
                return Err(e);
            },
        };
        self.db.posts_storage.create(&post)
    }

    /// Creates a draft under a fresh random id; for a known author and
    /// valid text the id draw alone decides between success and an
    /// internal id collision. For every value the draw could take,
    /// [`Self::create_post_with_id`] fixes the outcome exactly, so a
    /// created draft always reads back field for field under its id.
    pub fn create_post(
        &mut self,
        author_tg_id: i64,
        title: String,
        content: String,
        tg_photo_file_id: Option<String>,
        vk_photo_file_id: Option<String>,
        tg_video_file_id: Option<String>,
        vk_video_file_id: Option<String>,
        publish_datetime: Option<i64>,
        now: i64,
    ) -> (r: Result<Post, AppError>)
        requires
            old(self).db.wf(),
            old(self).db.posts_storage@.len() < 0xffff_ffff,
        ensures
            final(self).db.wf(),
            final(self).db.users_storage == old(self).db.users_storage,
            r is Err ==> final(self).db.posts_storage@ == old(self).db.posts_storage@,
            r matches Err(e) ==> ({
                let users = old(self).db.users_storage@;
                &&& e is NotFound <==> !contains_telegram_id(users, author_tg_id)
                &&& e is InvalidArgument <==> contains_telegram_id(users, author_tg_id) && !(
                valid_title(title@) && valid_content(content@))
                &&& e is NotFound || e is InvalidArgument || e is Internal
            }),
            r matches Ok(p) ==> ({
                let users = old(self).db.users_storage@;
                let author = users[user_idx_of_telegram(users, author_tg_id)];
                &&& contains_telegram_id(users, author_tg_id)
                &&& p == new_post_record(
                    p.id,
                    title,
                    content,
                    tg_photo_file_id,
                    vk_photo_file_id,
                    tg_video_file_id,
                    vk_video_file_id,
                    publish_datetime,
                    author.id,
                    now,
                )
                &&& final(self).db.posts_storage@ == old(self).db.posts_storage@.push(p)
            }),
    {
        let id = fresh_id();
        self.create_post_with_id(
            id,
            author_tg_id,
            title,
            content,
            tg_photo_file_id,
            vk_photo_file_id,
            tg_video_file_id,
            vk_video_file_id,
            publish_datetime,
            now,
        )
    }

    /// The post with this id, if stored.
    pub fn get_post(&self, post_id: u128) -> (r: Option<Post>)
        ensures
            r is Some <==> contains_post_id(self.db.posts_storage@, post_id),
            r matches Some(p) ==> self.db.posts_storage@.contains(p) && p.id == post_id,
    {
        self.db.posts_storage.get(post_id)
    }

    /// One page of the author's posts under the status filter.
    ///
    /// A negative chat identifier and out-of-range paging parameters are
    /// rejected as invalid; an unknown author is reported as absent.
    pub fn list_posts(
        &self,
        author_tg_id: i64,
        page: u32,
        page_size: u32,
        status_filter: Option<Status>,
    ) -> (r: Result<ListPostsResult, AppError>)
        requires
            self.db.wf(),
        ensures
            r is Ok <==> author_tg_id >= 0 && contains_telegram_id(
                self.db.users_storage@,
                author_tg_id,
            ) && valid_page_params(page, page_size),
            r matches Ok(l) ==> ({
                let users = self.db.users_storage@;
                let author = users[user_idx_of_telegram(users, author_tg_id)];
                let f = filtered_posts(self.db.posts_storage@, author.id, status_filter);
                &&& l.posts@ == spec_page_items(f, page as nat, page_size as nat)
                &&& l.total_count == f.len()
                &&& l.current_page == page
                &&& l.total_pages == spec_total_pages(f.len(), page_size as nat)
            }),
            r matches Err(e) ==> ({
                let users = self.db.users_storage@;
                &&& e is NotFound <==> author_tg_id >= 0 && !contains_telegram_id(
                    users,
                    author_tg_id,
                )
                &&& e is InvalidArgument <==> author_tg_id < 0 || (contains_telegram_id(
                    users,
                    author_tg_id,
                ) && !valid_page_params(page, page_size))
                &&& e is NotFound || e is InvalidArgument
            }),
    {
        if author_tg_id < 0 {
            return Err(AppError::InvalidArgument);
        }
        let author = match self.db.users_storage.get(author_tg_id) {
            Some(u) => u,
            None => {
                return Err(AppError::NotFound);
            },
        };
        proof {
            let users = self.db.users_storage@;
            assert(users.contains(author));
            let j = choose|j: int| 0 <= j < users.len() && users[j] == author;
            let k = user_idx_of_telegram(users, author_tg_id);
            assert(users[k].telegram_id == author_tg_id);
            assert(k == j);
        }
        self.db.posts_storage.list_posts(author.id, page, page_size, status_filter)
    }

    /// Replaces a stored post, keyed by its id.
    pub fn update_post(&mut self, post: &Post) -> (r: Result<Post, AppError>)
        requires
            post.wf(),
            old(self).db.wf(),
        ensures
            final(self).db.wf(),
            final(self).db.users_storage == old(self).db.users_storage,
            r is Ok <==> contains_post_id(old(self).db.posts_storage@, post.id),
            r matches Ok(p) ==> p == *post && final(self).db.posts_storage@ == old(
                self,
            ).db.posts_storage@.update(post_idx_of(old(self).db.posts_storage@, post.id), *post),
            r is Err ==> final(self).db.posts_storage@ == old(self).db.posts_storage@,
            r matches Err(e) ==> e is NotFound,
    {
        self.db.posts_storage.update(post)
    }

    /// Removes the post with this id.
    pub fn delete_post(&mut self, post_id: u128) -> (r: Result<(), AppError>)
        requires
            old(self).db.wf(),
        ensures
            final(self).db.wf(),
            final(self).db.users_storage == old(self).db.users_storage,
            r is Ok <==> contains_post_id(old(self).db.posts_storage@, post_id),
            r is Ok ==> final(self).db.posts_storage@ == old(self).db.posts_storage@.remove(
                post_idx_of(old(self).db.posts_storage@, post_id),
            ),
            r is Err ==> final(self).db.posts_storage@ == old(self).db.posts_storage@,
            r matches Err(e) ==> e is NotFound,
    {
        self.db.posts_storage.delete(post_id)
    }

    /// Publishes the post right now, whatever its prior status: the status
    /// flips to `Published` and the publish instant to now, and the store
    /// is updated before any delivery is attempted.
    pub fn publish_now(&mut self, post_id: u128, now: i64) -> (r: Result<Post, AppError>)
        requires
            old(self).db.wf(),
        ensures
            final(self).db.wf(),
            final(self).db.users_storage == old(self).db.users_storage,
            r is Ok <==> contains_post_id(old(self).db.posts_storage@, post_id),
            r matches Ok(p) ==> ({
                let s = old(self).db.posts_storage@;
                let k = post_idx_of(s, post_id);
                &&& p == spec_publish_now(s[k], now)
                &&& final(self).db.posts_storage@ == s.update(k, p)
            }),
            r is Err ==> final(self).db.posts_storage@ == old(self).db.posts_storage@,
            r matches Err(e) ==> e is NotFound,
    {
        let found = match self.db.posts_storage.get(post_id) {
            Some(p) => p,
            None => {
                return Err(AppError::NotFound);
            },
        };
        let ghost orig = found;
        let mut changed = found;
        changed.publish_now(now);
        proof {
            let s = self.db.posts_storage@;
            assert(s.contains(orig));
            let j = choose|j: int| 0 <= j < s.len() && s[j] == orig;
            assert(s[j].id == changed.id);
            assert(contains_post_id(s, changed.id));
            let k2 = post_idx_of(s, changed.id);
            assert(s[k2].id == changed.id);
            assert(k2 == j);
            let k = post_idx_of(s, post_id);
            assert(k == j);
        }
        match self.db.posts_storage.update(&changed) {
            Ok(updated) => Ok(updated),
            Err(e) => Err(e),
        }
    }

    /// Schedules the post for the given instant, whatever its prior
    /// status: the status flips to `Pending` with that publish instant.
    pub fn set_publish_date(&mut self, post_id: u128, date: i64) -> (r: Result<Post, AppError>)
        requires
            old(self).db.wf(),
        ensures
            final(self).db.wf(),
            final(self).db.users_storage == old(self).db.users_storage,
            r is Ok <==> contains_post_id(old(self).db.posts_storage@, post_id),
            r matches Ok(p) ==> ({
                let s = old(self).db.posts_storage@;
                let k = post_idx_of(s, post_id);
                &&& p == spec_set_publish_date(s[k], date)
                &&& final(self).db.posts_storage@ == s.update(k, p)
            }),
            r is Err ==> final(self).db.posts_storage@ == old(self).db.posts_storage@,
            r matches Err(e) ==> e is NotFound,
    {
        let found = match self.db.posts_storage.get(post_id) {
            Some(p) => p,
            None => {
                return Err(AppError::NotFound);
            },
        };
        let ghost orig = found;
        let mut changed = found;
        changed.set_publish_date(date);
        proof {
            let s = self.db.posts_storage@;
            assert(s.contains(orig));
            let j = choose|j: int| 0 <= j < s.len() && s[j] == orig;
            assert(s[j].id == changed.id);
            assert(contains_post_id(s, changed.id));
            let k2 = post_idx_of(s, changed.id);
            assert(s[k2].id == changed.id);
            assert(k2 == j);
            let k = post_idx_of(s, post_id);
            assert(k == j);
        }
        match self.db.posts_storage.update(&changed) {
            Ok(updated) => Ok(updated),
            Err(e) => Err(e),
        }
    }
}

} // verus!
